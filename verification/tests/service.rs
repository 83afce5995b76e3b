use llm_gateway::domain::ChatMessage;
use llm_gateway::domain::Choice;
use llm_gateway::domain::CompletionRequest;
use llm_gateway::domain::CompletionResponse;
use llm_gateway::domain::ModelInfo;
use llm_gateway::domain::Role;
use llm_gateway::domain::Usage;
use llm_gateway::error::DomainError;
use llm_gateway::ports::CompletionUseCase;
use llm_gateway::ports::LLMProvider;
use llm_gateway::service::CompletionService;

/// Mock provider for testing. Its `complete` echoes the requested model
/// and marks the response id with the provider's own name, so tests can
/// see which adapter answered.
struct MockProvider {
    name: String,
    model_ids: Vec<String>,
}

impl MockProvider {
    fn new(name: &str, model_ids: Vec<&str>) -> Self {
        Self {
            name: name.to_string(),
            model_ids: model_ids.into_iter().map(String::from).collect(),
        }
    }
}

impl LLMProvider for MockProvider {
    fn complete(&self, req: &CompletionRequest) -> Result<CompletionResponse, DomainError> {
        Ok(CompletionResponse {
            id: self.name.clone(),
            model: req.model.clone(),
            choices: vec![Choice {
                index: 0,
                message: ChatMessage {
                    role: Role::Assistant,
                    content: "mock response".to_string(),
                },
                finish_reason: "stop".to_string(),
            }],
            usage: Usage {
                prompt_tokens: 10,
                completion_tokens: 5,
                total_tokens: 15,
            },
        })
    }

    fn models(&self) -> Vec<ModelInfo> {
        self.model_ids
            .iter()
            .map(|id| ModelInfo {
                id: id.clone(),
                provider: self.name.clone(),
                owned_by: self.name.clone(),
            })
            .collect()
    }

    fn provider_name(&self) -> &str {
        &self.name
    }
}

fn make_request(model: &str) -> CompletionRequest {
    CompletionRequest {
        model: model.to_string(),
        messages: vec![ChatMessage {
            role: Role::User,
            content: "hello".to_string(),
        }],
        temperature: None,
        max_tokens: None,
    }
}

#[test]
fn test_routes_to_correct_provider() {
    let service = CompletionService::new(vec![
        MockProvider::new("openai", vec!["gpt-5.2", "gpt-5-mini"]),
        MockProvider::new("anthropic", vec!["apex-large"]),
    ]);

    let resp = service.complete(make_request("gpt-5.2")).unwrap();
    assert_eq!(resp.model, "gpt-5.2");

    let resp = service.complete(make_request("apex-large")).unwrap();
    assert_eq!(resp.model, "apex-large");
}

#[test]
fn test_model_not_found() {
    let service = CompletionService::new(vec![MockProvider::new("openai", vec!["gpt-5.2"])]);

    let result = service.complete(make_request("nonexistent"));
    assert!(matches!(result, Err(DomainError::ModelNotFound(_))));
}

#[test]
fn test_empty_messages_rejected() {
    let service = CompletionService::new(vec![MockProvider::new("openai", vec!["gpt-5.2"])]);

    let req = CompletionRequest {
        model: "gpt-5.2".to_string(),
        messages: vec![],
        temperature: None,
        max_tokens: None,
    };
    let result = service.complete(req);
    assert!(matches!(result, Err(DomainError::InvalidRequest(_))));
}

#[test]
fn test_list_models_aggregates_all_providers() {
    let service = CompletionService::new(vec![
        MockProvider::new("openai", vec!["gpt-5.2", "gpt-5-mini"]),
        MockProvider::new("anthropic", vec!["apex-large"]),
    ]);

    let models = service.list_models();
    assert_eq!(models.len(), 3);
}

#[test]
fn test_list_models_keeps_registration_order() {
    let service = CompletionService::new(vec![
        MockProvider::new("openai", vec!["gpt-5.2", "gpt-5-mini"]),
        MockProvider::new("anthropic", vec!["apex-large"]),
    ]);

    let models = service.list_models();
    let ids: Vec<&str> = models.iter().map(|m| m.id.as_str()).collect();
    assert_eq!(ids, vec!["gpt-5.2", "gpt-5-mini", "apex-large"]);
    assert_eq!(models[0].provider, "openai");
    assert_eq!(models[2].provider, "anthropic");
}

#[test]
fn test_list_models_no_providers_is_empty() {
    let service: CompletionService<MockProvider> = CompletionService::new(vec![]);
    assert!(service.list_models().is_empty());
}

#[test]
fn test_dispatches_to_declaring_provider() {
    let service = CompletionService::new(vec![
        MockProvider::new("openai", vec!["gpt-x"]),
        MockProvider::new("anthropic", vec!["apex-y"]),
    ]);

    let resp = service
        .complete(CompletionRequest {
            model: "apex-y".to_string(),
            messages: vec![ChatMessage {
                role: Role::User,
                content: "hi".to_string(),
            }],
            temperature: None,
            max_tokens: None,
        })
        .unwrap();
    assert_eq!(resp.id, "anthropic");
    assert_eq!(resp.model, "apex-y");
    assert!(!resp.choices.is_empty());
}

#[test]
fn test_duplicate_model_first_registered_wins() {
    let service = CompletionService::new(vec![
        MockProvider::new("first", vec!["shared-model"]),
        MockProvider::new("second", vec!["shared-model"]),
    ]);

    let resp = service.complete(make_request("shared-model")).unwrap();
    assert_eq!(resp.id, "first");
}

#[test]
fn test_model_not_found_carries_model_id() {
    let service = CompletionService::new(vec![MockProvider::new("openai", vec!["gpt-5.2"])]);

    match service.complete(make_request("missing-model")) {
        Err(DomainError::ModelNotFound(model)) => assert_eq!(model, "missing-model"),
        other => panic!("expected ModelNotFound, got {:?}", other.map(|r| r.model)),
    }
}

#[test]
fn test_empty_messages_rejected_before_routing() {
    // An empty message list fails even when the model is unknown too:
    // validation comes first.
    let service = CompletionService::new(vec![MockProvider::new("openai", vec!["gpt-5.2"])]);

    let req = CompletionRequest {
        model: "nonexistent".to_string(),
        messages: vec![],
        temperature: None,
        max_tokens: None,
    };
    match service.complete(req) {
        Err(DomainError::InvalidRequest(detail)) => {
            assert_eq!(detail, "messages must not be empty")
        }
        _ => panic!("expected InvalidRequest"),
    }
}

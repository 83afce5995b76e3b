use llm_gateway::domain::ChatMessage;
use llm_gateway::domain::CompletionRequest;
use llm_gateway::domain::Role;
use llm_gateway::error::DomainError;
use llm_gateway::openai::from_openai_response;
use llm_gateway::openai::interpret_outcome;
use llm_gateway::openai::role_to_string;
use llm_gateway::openai::string_to_role;
use llm_gateway::openai::to_openai_request;
use llm_gateway::openai::OpenAIChoice;
use llm_gateway::openai::OpenAIMessage;
use llm_gateway::openai::OpenAIProvider;
use llm_gateway::openai::OpenAIResponse;
use llm_gateway::openai::OpenAIUsage;
use llm_gateway::openai::UpstreamOutcome;
use llm_gateway::ports::KeyStore;

#[test]
fn test_to_openai_request() {
    let req = CompletionRequest {
        model: "gpt-5.2".to_string(),
        messages: vec![
            ChatMessage {
                role: Role::System,
                content: "You are helpful.".to_string(),
            },
            ChatMessage {
                role: Role::User,
                content: "Hello".to_string(),
            },
        ],
        temperature: Some(0.7f32.to_bits()),
        max_tokens: Some(1000),
    };

    let openai_req = to_openai_request(&req);
    assert_eq!(openai_req.model, "gpt-5.2");
    assert_eq!(openai_req.messages.len(), 2);
    assert_eq!(openai_req.messages[0].role, "developer");
    assert_eq!(openai_req.messages[1].role, "user");
    assert_eq!(openai_req.temperature, Some(0.7f32.to_bits()));
    assert_eq!(openai_req.temperature.map(f32::from_bits), Some(0.7));
    assert_eq!(openai_req.max_tokens, Some(1000));
}

#[test]
fn test_from_openai_response() {
    let openai_resp = OpenAIResponse {
        id: "chatcmpl-123".to_string(),
        model: "gpt-5.2".to_string(),
        choices: vec![OpenAIChoice {
            index: 0,
            message: OpenAIMessage {
                role: "assistant".to_string(),
                content: "Hi there!".to_string(),
            },
            finish_reason: "stop".to_string(),
        }],
        usage: OpenAIUsage {
            prompt_tokens: 20,
            completion_tokens: 5,
            total_tokens: 25,
        },
    };

    let resp = from_openai_response(openai_resp);
    assert_eq!(resp.id, "chatcmpl-123");
    assert_eq!(resp.model, "gpt-5.2");
    assert_eq!(resp.choices.len(), 1);
    assert_eq!(resp.choices[0].message.role, Role::Assistant);
    assert_eq!(resp.choices[0].message.content, "Hi there!");
    assert_eq!(resp.usage.prompt_tokens, 20);
    assert_eq!(resp.usage.total_tokens, 25);
}

#[test]
fn test_role_to_string() {
    assert_eq!(role_to_string(&Role::System), "developer");
    assert_eq!(role_to_string(&Role::User), "user");
    assert_eq!(role_to_string(&Role::Assistant), "assistant");
    assert_eq!(role_to_string(&Role::Tool), "tool");
}

#[test]
fn test_string_to_role() {
    // Current roles
    assert_eq!(string_to_role("developer"), Role::System);
    assert_eq!(string_to_role("user"), Role::User);
    assert_eq!(string_to_role("assistant"), Role::Assistant);
    assert_eq!(string_to_role("tool"), Role::Tool);

    // Legacy compatibility
    assert_eq!(string_to_role("system"), Role::System);
    assert_eq!(string_to_role("function"), Role::Tool);

    // Unknown role
    assert_eq!(string_to_role("unknown"), Role::User);
}

#[test]
fn test_interpret_timeout() {
    let result = interpret_outcome(UpstreamOutcome::TimedOut);
    assert!(matches!(result, Err(DomainError::Timeout)));
}

#[test]
fn test_interpret_http_error_is_not_timeout() {
    // A slow-but-answering upstream that fails with a status is a
    // provider error, never a timeout.
    let result = interpret_outcome(UpstreamOutcome::HttpError {
        status: 500,
        envelope_message: None,
        body: "whatever".to_string(),
    });
    assert!(matches!(result, Err(DomainError::ProviderError(_))));
}

#[test]
fn test_interpret_http_error_envelope() {
    let result = interpret_outcome(UpstreamOutcome::HttpError {
        status: 500,
        envelope_message: Some("overloaded".to_string()),
        body: "{\"error\":{\"message\":\"overloaded\"}}".to_string(),
    });
    match result {
        Err(DomainError::ProviderError(detail)) => {
            assert!(detail.contains("overloaded"));
            assert_eq!(detail, "OpenAI API error (500): overloaded");
        }
        _ => panic!("expected ProviderError"),
    }
}

#[test]
fn test_interpret_http_error_unparseable_envelope_uses_body() {
    let result = interpret_outcome(UpstreamOutcome::HttpError {
        status: 503,
        envelope_message: None,
        body: "service unavailable".to_string(),
    });
    match result {
        Err(DomainError::ProviderError(detail)) => {
            assert_eq!(detail, "OpenAI API error (503): service unavailable");
        }
        _ => panic!("expected ProviderError"),
    }
}

#[test]
fn test_interpret_transport_failure() {
    let result = interpret_outcome(UpstreamOutcome::TransportFailed(
        "connection refused".to_string(),
    ));
    match result {
        Err(DomainError::ProviderError(detail)) => assert_eq!(detail, "connection refused"),
        _ => panic!("expected ProviderError"),
    }
}

#[test]
fn test_interpret_malformed_body() {
    let result = interpret_outcome(UpstreamOutcome::MalformedBody(
        "missing field `id`".to_string(),
    ));
    match result {
        Err(DomainError::ProviderError(detail)) => {
            assert_eq!(detail, "failed to parse OpenAI response: missing field `id`");
        }
        _ => panic!("expected ProviderError"),
    }
}

#[test]
fn test_interpret_success_translates() {
    let outcome = UpstreamOutcome::Success(OpenAIResponse {
        id: "chatcmpl-9".to_string(),
        model: "gpt-5".to_string(),
        choices: vec![OpenAIChoice {
            index: 2,
            message: OpenAIMessage {
                role: "function".to_string(),
                content: "42".to_string(),
            },
            finish_reason: "stop".to_string(),
        }],
        usage: OpenAIUsage {
            prompt_tokens: 1,
            completion_tokens: 2,
            total_tokens: 3,
        },
    });
    let resp = interpret_outcome(outcome).unwrap();
    assert_eq!(resp.id, "chatcmpl-9");
    assert_eq!(resp.model, "gpt-5");
    // The vendor-reported index is preserved, not renumbered.
    assert_eq!(resp.choices[0].index, 2);
    // The deprecated "function" role decodes to Tool.
    assert_eq!(resp.choices[0].message.role, Role::Tool);
    assert_eq!(resp.usage.total_tokens, 3);
}

/// Key store with a fixed table, for construction tests.
struct FixedKeyStore {
    entries: Vec<(String, String)>,
}

impl KeyStore for FixedKeyStore {
    fn get_key(&self, provider: &str) -> Result<String, DomainError> {
        for (name, key) in &self.entries {
            if name == provider {
                return Ok(key.clone());
            }
        }
        Err(DomainError::KeyNotFound(provider.to_string()))
    }
}

#[test]
fn test_provider_new_fails_without_key() {
    let store = FixedKeyStore { entries: vec![] };
    match OpenAIProvider::new(&store, None) {
        Err(DomainError::KeyNotFound(provider)) => assert_eq!(provider, "openai"),
        _ => panic!("expected KeyNotFound"),
    }
}

#[test]
fn test_provider_new_resolves_key_and_endpoint() {
    let store = FixedKeyStore {
        entries: vec![("openai".to_string(), "test-key".to_string())],
    };
    let provider = OpenAIProvider::new(&store, None).unwrap();
    assert_eq!(provider.provider_name(), "openai");
    assert_eq!(provider.auth_header_value(), "Bearer test-key");
    assert_eq!(
        provider.complete_url(),
        "https://api.openai.com/v1/chat/completions"
    );
}

#[test]
fn test_provider_new_honours_base_url_override() {
    let store = FixedKeyStore {
        entries: vec![("openai".to_string(), "test-key".to_string())],
    };
    let provider = OpenAIProvider::new(&store, Some("http://localhost:9999".to_string())).unwrap();
    assert_eq!(
        provider.complete_url(),
        "http://localhost:9999/v1/chat/completions"
    );
}

#[test]
fn test_openai_models_catalog() {
    let store = FixedKeyStore {
        entries: vec![("openai".to_string(), "test-key".to_string())],
    };
    let provider = OpenAIProvider::new(&store, None).unwrap();
    let models = provider.models();
    let ids: Vec<&str> = models.iter().map(|m| m.id.as_str()).collect();
    assert_eq!(ids, vec!["gpt-5.2", "gpt-5", "gpt-5-mini", "o4-mini", "o3"]);
    for m in &models {
        assert_eq!(m.provider, "openai");
        assert_eq!(m.owned_by, "openai");
    }
}

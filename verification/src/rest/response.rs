//! Outbound REST response shapes and their conversion from the domain
//! model.

use vstd::prelude::*;

use crate::domain::Choice;
use crate::domain::CompletionResponse;
use crate::domain::ModelInfo;
use crate::domain::Role;

verus! {

/// Completion response as the REST API sends it.
#[derive(Clone, Debug)]
pub struct CompletionResponseDto {
    pub id: String,
    pub model: String,
    pub choices: Vec<ChoiceDto>,
    pub usage: UsageDto,
}

/// Choice as the REST API sends it.
#[derive(Clone, Debug)]
pub struct ChoiceDto {
    pub index: u32,
    pub message: MessageDto,
    pub finish_reason: String,
}

/// Message as the REST API sends it: the role is a plain string.
#[derive(Clone, Debug)]
pub struct MessageDto {
    pub role: String,
    pub content: String,
}

/// Token usage as the REST API sends it.
#[derive(Clone, Copy, Debug)]
pub struct UsageDto {
    pub prompt_tokens: u32,
    pub completion_tokens: u32,
    pub total_tokens: u32,
}

/// Models list as the REST API sends it.
#[derive(Clone, Debug)]
pub struct ModelsResponseDto {
    pub models: Vec<ModelInfoDto>,
}

/// Model info as the REST API sends it.
#[derive(Clone, Debug)]
pub struct ModelInfoDto {
    pub id: String,
    pub provider: String,
    pub owned_by: String,
}

/// The outbound role vocabulary of the REST API: the four canonical
/// strings (here `System` is `system`, unlike the vendor table).
pub open spec fn api_role(role: Role) -> Seq<char> {
    match role {
        Role::System => "system"@,
        Role::User => "user"@,
        Role::Assistant => "assistant"@,
        Role::Tool => "tool"@,
    }
}

/// Converts a domain role to a REST API role string.
pub fn role_to_api_string(role: &Role) -> (r: &'static str)
    ensures
        r@ == api_role(*role),
{
    match role {
        Role::System => "system",
        Role::User => "user",
        Role::Assistant => "assistant",
        Role::Tool => "tool",
    }
}

/// Encoding a role for the REST wire and parsing it back yields the same
/// role: the strict inbound vocabulary accepts exactly the canonical
/// strings this encoder emits.
pub proof fn lemma_api_role_round_trip(role: Role)
    ensures
        crate::rest::request::parsed_role(api_role(role)) == Some(role),
{
    reveal_strlit("system");
    reveal_strlit("user");
    reveal_strlit("assistant");
    reveal_strlit("tool");
    assert("system"@.len() == 6 && "user"@.len() == 4 && "assistant"@.len() == 9 && "tool"@.len()
        == 4);
    assert("tool"@[0] == 't' && "user"@[0] == 'u');
    assert("tool"@ != "user"@);
}

/// How one domain choice reads on the REST wire.
pub open spec fn choice_dto_of(c: Choice, d: ChoiceDto) -> bool {
    &&& d.index == c.index
    &&& d.message.role@ == api_role(c.message.role)
    &&& d.message.content@ == c.message.content@
    &&& d.finish_reason@ == c.finish_reason@
}

impl CompletionResponseDto {
    /// Renders a domain response for the REST wire: everything verbatim,
    /// roles encoded with the REST vocabulary.
    pub fn from_domain(resp: CompletionResponse) -> (r: CompletionResponseDto)
        ensures
            r.id@ == resp.id@,
            r.model@ == resp.model@,
            r.choices@.len() == resp.choices@.len(),
            forall|i: int|
                0 <= i < resp.choices@.len() ==> #[trigger] choice_dto_of(
                    resp.choices@[i],
                    r.choices@[i],
                ),
            r.usage.prompt_tokens == resp.usage.prompt_tokens,
            r.usage.completion_tokens == resp.usage.completion_tokens,
            r.usage.total_tokens == resp.usage.total_tokens,
    {
        let mut choices: Vec<ChoiceDto> = Vec::new();
        let mut i: usize = 0;
        while i < resp.choices.len()
            invariant
                i <= resp.choices@.len(),
                choices@.len() == i,
                forall|j: int|
                    0 <= j < i ==> #[trigger] choice_dto_of(resp.choices@[j], choices@[j]),
            decreases resp.choices@.len() - i,
        {
            let c = &resp.choices[i];
            choices.push(
                ChoiceDto {
                    index: c.index,
                    message: MessageDto {
                        role: role_to_api_string(&c.message.role).to_owned(),
                        content: c.message.content.clone(),
                    },
                    finish_reason: c.finish_reason.clone(),
                },
            );
            i += 1;
        }
        CompletionResponseDto {
            id: resp.id,
            model: resp.model,
            choices,
            usage: UsageDto {
                prompt_tokens: resp.usage.prompt_tokens,
                completion_tokens: resp.usage.completion_tokens,
                total_tokens: resp.usage.total_tokens,
            },
        }
    }
}

/// How one domain catalog entry reads on the REST wire.
pub open spec fn model_info_dto_of(m: ModelInfo, d: ModelInfoDto) -> bool {
    d.id@ == m.id@ && d.provider@ == m.provider@ && d.owned_by@ == m.owned_by@
}

impl ModelInfoDto {
    /// Renders one catalog entry for the REST wire, verbatim.
    pub fn from_domain(m: ModelInfo) -> (r: ModelInfoDto)
        ensures
            model_info_dto_of(m, r),
    {
        ModelInfoDto { id: m.id, provider: m.provider, owned_by: m.owned_by }
    }
}

impl ModelsResponseDto {
    /// Renders a whole catalog for the REST wire, in order.
    pub fn from_domain(models: Vec<ModelInfo>) -> (r: ModelsResponseDto)
        ensures
            r.models@.len() == models@.len(),
            forall|i: int|
                0 <= i < models@.len() ==> #[trigger] model_info_dto_of(
                    models@[i],
                    r.models@[i],
                ),
    {
        let mut out: Vec<ModelInfoDto> = Vec::new();
        let mut i: usize = 0;
        while i < models.len()
            invariant
                i <= models@.len(),
                out@.len() == i,
                forall|j: int|
                    0 <= j < i ==> #[trigger] model_info_dto_of(models@[j], out@[j]),
            decreases models@.len() - i,
        {
            let m = &models[i];
            out.push(
                ModelInfoDto {
                    id: m.id.clone(),
                    provider: m.provider.clone(),
                    owned_by: m.owned_by.clone(),
                },
            );
            i += 1;
        }
        ModelsResponseDto { models: out }
    }
}

} // verus!

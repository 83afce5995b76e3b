//! Inbound REST request shapes and their conversion into the domain
//! model. Unlike the lenient decoding of vendor responses, an unknown role
//! string in a client request is rejected with `InvalidRequest`.

use vstd::prelude::*;
use vstd::string::StringExecFns;

use crate::domain::ChatMessage;
use crate::domain::CompletionRequest;
use crate::domain::Role;
use crate::error::DomainError;
use crate::text::str_eq;

verus! {

/// Completion request as the REST API receives it.
///
/// `temperature` carries the IEEE 754 bit pattern of the wire number, as
/// in [`CompletionRequest`].
#[derive(Clone, Debug)]
pub struct CompletionRequestDto {
    pub model: String,
    pub messages: Vec<MessageDto>,
    pub temperature: Option<u32>,
    pub max_tokens: Option<u32>,
}

/// Message as the REST API receives it: the role is a plain string.
#[derive(Clone, Debug)]
pub struct MessageDto {
    pub role: String,
    pub content: String,
}

/// The strict inbound role vocabulary: exactly the four OpenAI-compatible
/// strings, anything else is no role.
pub open spec fn parsed_role(s: Seq<char>) -> Option<Role> {
    if s == "system"@ {
        Some(Role::System)
    } else if s == "user"@ {
        Some(Role::User)
    } else if s == "assistant"@ {
        Some(Role::Assistant)
    } else if s == "tool"@ {
        Some(Role::Tool)
    } else {
        None
    }
}

/// Parses a client-supplied role string, strictly.
pub fn parse_role(s: &str) -> (r: Result<Role, DomainError>)
    ensures
        match parsed_role(s@) {
            Some(role) => r == Ok::<Role, DomainError>(role),
            None => r matches Err(e) && (e matches DomainError::InvalidRequest(d) && d@
                == "unknown role: "@ + s@),
        },
{
    if str_eq(s, "system") {
        Ok(Role::System)
    } else if str_eq(s, "user") {
        Ok(Role::User)
    } else if str_eq(s, "assistant") {
        Ok(Role::Assistant)
    } else if str_eq(s, "tool") {
        Ok(Role::Tool)
    } else {
        let mut d = String::from_str("unknown role: ");
        d.append(s);
        Err(DomainError::InvalidRequest(d))
    }
}

/// How one wire message reads as a domain message.
pub open spec fn domain_message(w: MessageDto, m: ChatMessage) -> bool {
    parsed_role(w.role@) == Some(m.role) && m.content@ == w.content@
}

impl CompletionRequestDto {
    /// Converts this wire request into the domain model: succeeds exactly
    /// when every message's role string is in the strict vocabulary, and
    /// otherwise reports the first unknown role as `InvalidRequest`.
    pub fn into_domain(self) -> (r: Result<CompletionRequest, DomainError>)
        ensures
            match r {
                Ok(req) => {
                    &&& forall|i: int|
                        0 <= i < self.messages@.len() ==> #[trigger] parsed_role(
                            self.messages@[i].role@,
                        ) is Some
                    &&& req.model@ == self.model@
                    &&& req.messages@.len() == self.messages@.len()
                    &&& forall|i: int|
                        0 <= i < self.messages@.len() ==> #[trigger] domain_message(
                            self.messages@[i],
                            req.messages@[i],
                        )
                    &&& req.temperature == self.temperature
                    &&& req.max_tokens == self.max_tokens
                },
                Err(e) => exists|i: int|
                    {
                        &&& 0 <= i < self.messages@.len()
                        &&& #[trigger] parsed_role(self.messages@[i].role@) is None
                        &&& forall|j: int|
                            0 <= j < i ==> #[trigger] parsed_role(self.messages@[j].role@) is Some
                        &&& e matches DomainError::InvalidRequest(d) && d@ == "unknown role: "@
                            + self.messages@[i].role@
                    },
            },
    {
        let mut messages: Vec<ChatMessage> = Vec::new();
        let mut i: usize = 0;
        while i < self.messages.len()
            invariant
                i <= self.messages@.len(),
                messages@.len() == i,
                forall|j: int|
                    0 <= j < i ==> #[trigger] parsed_role(self.messages@[j].role@) is Some,
                forall|j: int|
                    0 <= j < i ==> #[trigger] domain_message(self.messages@[j], messages@[j]),
            decreases self.messages@.len() - i,
        {
            let w = &self.messages[i];
            let role = match parse_role(w.role.as_str()) {
                Ok(role) => role,
                Err(e) => {
                    return Err(e);
                },
            };
            messages.push(ChatMessage { role, content: w.content.clone() });
            i += 1;
        }
        Ok(
            CompletionRequest {
                model: self.model,
                messages,
                temperature: self.temperature,
                max_tokens: self.max_tokens,
            },
        )
    }
}

} // verus!

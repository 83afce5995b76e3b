//! Vendor-neutral request, response and model-catalog types.
//!
//! Every value here is transient: created for one completion exchange and
//! discarded afterwards. Nothing in this module depends on any vendor.

use vstd::prelude::*;

verus! {

/// Conversational role of a chat message.
///
/// Closed set; conversion to and from vendor-specific role strings is the
/// adapter layer's concern.
#[derive(Clone, Copy, Debug, PartialEq, Eq, Structural)]
pub enum Role {
    /// System instructions / context setting.
    System,
    /// User input.
    User,
    /// AI response.
    Assistant,
    /// Tool execution result (web search, function calls, etc.).
    Tool,
}

/// A chat message: one role and its text content.
#[derive(Clone, Debug)]
pub struct ChatMessage {
    pub role: Role,
    pub content: String,
}

/// A completion request, provider-agnostic.
///
/// `temperature`, when present, is the IEEE 754 single-precision bit
/// pattern of the sampling temperature. The gateway never interprets it;
/// it is carried through to the vendor verbatim, and the transport layer
/// converts it to and from the wire number.
#[derive(Clone, Debug)]
pub struct CompletionRequest {
    pub model: String,
    pub messages: Vec<ChatMessage>,
    pub temperature: Option<u32>,
    pub max_tokens: Option<u32>,
}

/// A completion response, provider-agnostic.
#[derive(Clone, Debug)]
pub struct CompletionResponse {
    pub id: String,
    pub model: String,
    pub choices: Vec<Choice>,
    pub usage: Usage,
}

/// One candidate reply within a completion response.
///
/// `index` is the position reported by the vendor; it is preserved, never
/// renumbered.
#[derive(Clone, Debug)]
pub struct Choice {
    pub index: u32,
    pub message: ChatMessage,
    pub finish_reason: String,
}

/// Token usage statistics, passed through verbatim from the vendor.
#[derive(Clone, Copy, Debug)]
pub struct Usage {
    pub prompt_tokens: u32,
    pub completion_tokens: u32,
    pub total_tokens: u32,
}

/// A model a provider declares to own.
#[derive(Clone, Debug)]
pub struct ModelInfo {
    pub id: String,
    pub provider: String,
    pub owned_by: String,
}

} // verus!

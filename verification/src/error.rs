//! The gateway's error taxonomy.
//!
//! Five kinds cover every failure that crosses a component boundary; every
//! vendor- or transport-specific failure is mapped into one of them before
//! it propagates.

use vstd::prelude::*;
use vstd::string::StringExecFns;

verus! {

/// Domain-layer error.
///
/// The only error vocabulary that crosses component boundaries.
#[derive(Debug)]
pub enum DomainError {
    /// Error response from an LLM provider.
    ProviderError(String),
    /// Invalid request parameters.
    InvalidRequest(String),
    /// The requested model was not found.
    ModelNotFound(String),
    /// API key not found for a provider.
    KeyNotFound(String),
    /// Request to a provider timed out.
    Timeout,
}

/// The human-readable description of an error, as `message` renders it.
pub open spec fn domain_error_text(e: DomainError) -> Seq<char> {
    match e {
        DomainError::ProviderError(msg) => "provider error: "@ + msg@,
        DomainError::InvalidRequest(msg) => "invalid request: "@ + msg@,
        DomainError::ModelNotFound(model) => "model not found: "@ + model@,
        DomainError::KeyNotFound(provider) => "API key not found for provider: "@ + provider@,
        DomainError::Timeout => "request timed out"@,
    }
}

impl DomainError {
    /// Renders the error for logs and diagnostics.
    pub fn message(&self) -> (r: String)
        ensures
            r@ == domain_error_text(*self),
    {
        match self {
            DomainError::ProviderError(msg) => {
                let mut s = String::from_str("provider error: ");
                s.append(msg.as_str());
                s
            },
            DomainError::InvalidRequest(msg) => {
                let mut s = String::from_str("invalid request: ");
                s.append(msg.as_str());
                s
            },
            DomainError::ModelNotFound(model) => {
                let mut s = String::from_str("model not found: ");
                s.append(model.as_str());
                s
            },
            DomainError::KeyNotFound(provider) => {
                let mut s = String::from_str("API key not found for provider: ");
                s.append(provider.as_str());
                s
            },
            DomainError::Timeout => String::from_str("request timed out"),
        }
    }
}

} // verus!

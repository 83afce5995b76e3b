//! The mapping from domain errors to transport status signals: each of
//! the five error kinds gets one HTTP status and one body message. The
//! transport layer renders the pair; the decision is made here.

use vstd::prelude::*;
use vstd::string::StringExecFns;

use crate::error::DomainError;

verus! {

/// A domain error on its way out through the REST boundary.
pub struct AppError(pub DomainError);

/// The HTTP status each error kind maps to: bad input is the client's
/// fault, an unknown model is not found, a missing key is server
/// misconfiguration, a timeout is an upstream timeout, and a provider
/// error is an upstream failure.
pub open spec fn error_status(e: DomainError) -> u16 {
    match e {
        DomainError::InvalidRequest(_) => 400,
        DomainError::ModelNotFound(_) => 404,
        DomainError::KeyNotFound(_) => 500,
        DomainError::Timeout => 504,
        DomainError::ProviderError(_) => 502,
    }
}

/// The body message each error kind maps to.
pub open spec fn error_body_text(e: DomainError) -> Seq<char> {
    match e {
        DomainError::InvalidRequest(msg) => msg@,
        DomainError::ModelNotFound(model) => "model not found: "@ + model@,
        DomainError::KeyNotFound(provider) => "API key not configured for "@ + provider@,
        DomainError::Timeout => "request timed out"@,
        DomainError::ProviderError(msg) => msg@,
    }
}

impl AppError {
    /// The HTTP status code for this error.
    pub fn status_code(&self) -> (s: u16)
        ensures
            s == error_status(self.0),
    {
        match &self.0 {
            DomainError::InvalidRequest(_) => 400,
            DomainError::ModelNotFound(_) => 404,
            DomainError::KeyNotFound(_) => 500,
            DomainError::Timeout => 504,
            DomainError::ProviderError(_) => 502,
        }
    }

    /// The response body message for this error.
    pub fn body_message(&self) -> (m: String)
        ensures
            m@ == error_body_text(self.0),
    {
        match &self.0 {
            DomainError::InvalidRequest(msg) => msg.clone(),
            DomainError::ModelNotFound(model) => {
                let mut s = String::from_str("model not found: ");
                s.append(model.as_str());
                s
            },
            DomainError::KeyNotFound(provider) => {
                let mut s = String::from_str("API key not configured for ");
                s.append(provider.as_str());
                s
            },
            DomainError::Timeout => String::from_str("request timed out"),
            DomainError::ProviderError(msg) => msg.clone(),
        }
    }
}

impl From<DomainError> for AppError {
    /// Wraps a domain error for the REST boundary.
    fn from(e: DomainError) -> (r: AppError) {
        AppError(e)
    }
}

impl vstd::std_specs::convert::FromSpecImpl<DomainError> for AppError {
    open spec fn obeys_from_spec() -> bool {
        true
    }

    open spec fn from_spec(e: DomainError) -> AppError {
        AppError(e)
    }
}

} // verus!

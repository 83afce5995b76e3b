//! The capability interfaces at the core's boundary.
//!
//! `LLMProvider` and `KeyStore` are consumed: each vendor adapter and each
//! credential backend implements them outside this crate, and everything
//! proved through them holds of an implementation exactly as far as it
//! honours these contracts. `CompletionUseCase` is exposed: it is what a
//! transport adapter calls.

use vstd::prelude::*;

use crate::domain::CompletionRequest;
use crate::domain::CompletionResponse;
use crate::domain::ModelInfo;
use crate::error::DomainError;

verus! {

/// LLM provider port.
///
/// Implemented by each vendor adapter. Adding a vendor only requires
/// implementing this trait and registering the adapter.
pub trait LLMProvider: Sized + Send + Sync {
    /// The model catalog this adapter declares. It is a function of the
    /// adapter value alone, so the catalog is stable across calls for the
    /// life of the adapter. An adapter that states nothing declares no
    /// models.
    open spec fn models_spec(&self) -> Seq<ModelInfo> {
        Seq::empty()
    }

    /// The vendor identifier, e.g. `openai`.
    open spec fn name_spec(&self) -> Seq<char> {
        Seq::empty()
    }

    /// What one finished call promises: how the returned result relates to
    /// the request. Each adapter chooses its own relation; a call may
    /// resolve differently on different attempts (network weather), so this
    /// is a relation, not a function. An adapter that states nothing
    /// promises nothing beyond the error taxonomy the types enforce.
    open spec fn complete_post(
        &self,
        req: CompletionRequest,
        r: Result<CompletionResponse, DomainError>,
    ) -> bool {
        true
    }

    /// Executes a chat completion request against the vendor.
    ///
    /// Every failure mode must already be translated into a `DomainError`;
    /// nothing vendor-specific escapes.
    fn complete(&self, req: &CompletionRequest) -> (r: Result<CompletionResponse, DomainError>)
        ensures
            self.complete_post(*req, r),
    ;

    /// Returns the list of models this provider declares.
    fn models(&self) -> (r: Vec<ModelInfo>)
        ensures
            r@ == self.models_spec(),
    ;

    /// Returns the provider name.
    fn provider_name(&self) -> (r: &str)
        ensures
            r@ == self.name_spec(),
    ;
}

/// API key retrieval port.
///
/// Retrieves API keys by provider name; can be backed by environment
/// variables, a vault, or anything else. The backing store is modeled as a
/// fixed mapping from provider name to credential for the life of the
/// store value.
pub trait KeyStore: Send + Sync {
    /// The credential configured for a provider name, if any. A store
    /// that states nothing has nothing configured.
    open spec fn key_spec(&self, provider: Seq<char>) -> Option<Seq<char>> {
        None
    }

    /// Retrieves the API key for the given provider.
    fn get_key(&self, provider: &str) -> (r: Result<String, DomainError>)
        ensures
            match self.key_spec(provider@) {
                Some(k) => r matches Ok(s) && s@ == k,
                None => r matches Err(e) && (e matches DomainError::KeyNotFound(p) && p@
                    == provider@),
            },
    ;
}

/// Completion use case port.
///
/// The single entry point a transport adapter (REST, gRPC, ...) consumes.
pub trait CompletionUseCase: Send + Sync {
    /// What one dispatch promises: how the returned result relates to the
    /// request.
    open spec fn dispatch_post(
        &self,
        req: CompletionRequest,
        r: Result<CompletionResponse, DomainError>,
    ) -> bool {
        true
    }

    /// The aggregate model catalog this service exposes.
    open spec fn catalog_spec(&self) -> Seq<ModelInfo> {
        Seq::empty()
    }

    /// Executes a chat completion.
    fn complete(&self, req: CompletionRequest) -> (r: Result<CompletionResponse, DomainError>)
        ensures
            self.dispatch_post(req, r),
    ;

    /// Returns all available models across all providers.
    fn list_models(&self) -> (r: Vec<ModelInfo>)
        ensures
            r@ == self.catalog_spec(),
    ;
}

} // verus!

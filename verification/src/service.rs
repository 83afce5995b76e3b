//! The completion dispatcher: holds the registered providers, validates a
//! request, resolves the owning provider by model identifier and
//! delegates, and aggregates the model catalogs.

use vstd::prelude::*;
use vstd::string::StringExecFns;

use crate::domain::CompletionRequest;
use crate::domain::CompletionResponse;
use crate::domain::ModelInfo;
use crate::error::DomainError;
use crate::ports::CompletionUseCase;
use crate::ports::LLMProvider;
use crate::text::str_eq;

verus! {

/// The concatenation, in registration order, of the catalogs of a run of
/// providers.
pub open spec fn models_concat<P: LLMProvider>(ps: Seq<P>) -> Seq<ModelInfo>
    decreases ps.len(),
{
    if ps.len() == 0 {
        Seq::empty()
    } else {
        models_concat(ps.drop_last()) + ps.last().models_spec()
    }
}

/// Completion domain service.
///
/// Holds the providers registered at startup — the list never changes
/// afterwards — and dispatches each completion request to the first
/// registered provider that declares the requested model.
pub struct CompletionService<P: LLMProvider> {
    providers: Vec<P>,
}

impl<P: LLMProvider> CompletionService<P> {
    /// The registered providers, in registration order.
    pub closed spec fn providers_seq(&self) -> Seq<P> {
        self.providers@
    }

    /// Whether one provider declares a model id in its catalog.
    pub open spec fn provider_declares(p: P, model: Seq<char>) -> bool {
        exists|i: int| 0 <= i < p.models_spec().len() && (#[trigger] p.models_spec()[i]).id@
            == model
    }

    /// Whether any registered provider declares the model id.
    pub open spec fn some_provider_declares(&self, model: Seq<char>) -> bool {
        exists|i: int| 0 <= i < self.providers_seq().len() && Self::provider_declares(
            #[trigger] self.providers_seq()[i],
            model,
        )
    }

    /// Whether `i` is the position of the first registered provider that
    /// declares the model id — the one that owns it, by first-match-wins.
    pub open spec fn is_first_owner(&self, model: Seq<char>, i: int) -> bool {
        &&& 0 <= i < self.providers_seq().len()
        &&& Self::provider_declares(self.providers_seq()[i], model)
        &&& forall|j: int|
            0 <= j < i ==> !Self::provider_declares(#[trigger] self.providers_seq()[j], model)
    }

    /// Creates a new service over the given providers.
    pub fn new(providers: Vec<P>) -> (s: Self)
        ensures
            s.providers_seq() == providers@,
    {
        CompletionService { providers }
    }

    /// Whether this provider's catalog declares the given model id.
    fn provider_has_model(p: &P, model: &str) -> (r: bool)
        ensures
            r == Self::provider_declares(*p, model@),
    {
        let models = p.models();
        let mut k: usize = 0;
        while k < models.len()
            invariant
                k <= models@.len(),
                models@ == p.models_spec(),
                forall|j: int| 0 <= j < k ==> (#[trigger] models@[j]).id@ != model@,
            decreases models@.len() - k,
        {
            if str_eq(models[k].id.as_str(), model) {
                return true;
            }
            k += 1;
        }
        false
    }

    /// Finds the first registered provider that declares the given model
    /// id, scanning in registration order.
    fn find_provider(&self, model: &str) -> (r: Option<usize>)
        ensures
            match r {
                Some(i) => self.is_first_owner(model@, i as int),
                None => !self.some_provider_declares(model@),
            },
    {
        let mut i: usize = 0;
        while i < self.providers.len()
            invariant
                i <= self.providers_seq().len(),
                forall|j: int|
                    0 <= j < i ==> !Self::provider_declares(
                        #[trigger] self.providers_seq()[j],
                        model@,
                    ),
            decreases self.providers_seq().len() - i,
        {
            if Self::provider_has_model(&self.providers[i], model) {
                return Some(i);
            }
            i += 1;
        }
        None
    }
}

/// `models_concat` of a prefix grows by exactly the next provider's
/// catalog.
proof fn lemma_models_concat_take<P: LLMProvider>(ps: Seq<P>, i: int)
    requires
        0 <= i < ps.len(),
    ensures
        models_concat(ps.take(i + 1)) == models_concat(ps.take(i)) + ps[i].models_spec(),
{
    assert(ps.take(i + 1).drop_last() =~= ps.take(i));
    assert(ps.take(i + 1).last() == ps[i]);
}

impl<P: LLMProvider> CompletionUseCase for CompletionService<P> {
    /// What one dispatch promises, by case on the request:
    ///
    /// - no messages: `InvalidRequest`, always;
    /// - no registered provider declares the model: `ModelNotFound`
    ///   carrying the requested model id;
    /// - otherwise: exactly what the first provider declaring the model
    ///   returned for this request, passed through unchanged.
    open spec fn dispatch_post(
        &self,
        req: CompletionRequest,
        r: Result<CompletionResponse, DomainError>,
    ) -> bool {
        if req.messages@.len() == 0 {
            r matches Err(DomainError::InvalidRequest(d)) && d@ == "messages must not be empty"@
        } else if !self.some_provider_declares(req.model@) {
            r matches Err(DomainError::ModelNotFound(m)) && m@ == req.model@
        } else {
            exists|i: int| #[trigger]
                self.is_first_owner(req.model@, i) && self.providers_seq()[i].complete_post(req, r)
        }
    }

    /// The concatenation, in registration order, of every registered
    /// provider's catalog; no deduplication.
    open spec fn catalog_spec(&self) -> Seq<ModelInfo> {
        models_concat(self.providers_seq())
    }

    /// Dispatches a completion request to the provider that owns the
    /// requested model.
    fn complete(&self, req: CompletionRequest) -> (r: Result<CompletionResponse, DomainError>) {
        if req.messages.len() == 0 {
            return Err(
                DomainError::InvalidRequest(String::from_str("messages must not be empty")),
            );
        }
        match self.find_provider(req.model.as_str()) {
            None => Err(DomainError::ModelNotFound(req.model)),
            Some(i) => {
                let ghost owner = i as int;
                let r = self.providers[i].complete(&req);
                proof {
                    assert(self.is_first_owner(req.model@, owner) && self.providers_seq()[owner]
                        .complete_post(req, r));
                }
                r
            },
        }
    }

    /// Returns every registered provider's models, in registration order.
    fn list_models(&self) -> (r: Vec<ModelInfo>) {
        let mut out: Vec<ModelInfo> = Vec::new();
        let mut i: usize = 0;
        while i < self.providers.len()
            invariant
                i <= self.providers_seq().len(),
                out@ == models_concat(self.providers_seq().take(i as int)),
            decreases self.providers_seq().len() - i,
        {
            let mut ms = self.providers[i].models();
            out.append(&mut ms);
            proof {
                lemma_models_concat_take(self.providers_seq(), i as int);
            }
            i += 1;
        }
        proof {
            assert(self.providers_seq().take(self.providers_seq().len() as int)
                =~= self.providers_seq());
        }
        out
    }
}

/// Registering no providers yields an empty aggregate catalog.
pub proof fn lemma_empty_catalog<P: LLMProvider>(s: CompletionService<P>)
    requires
        s.providers_seq().len() == 0,
    ensures
        s.catalog_spec() == Seq::<ModelInfo>::empty(),
{
}

/// A dispatched request is answered by the owning adapter alone: when the
/// request has at least one message, some registered provider declares its
/// model, and the first such provider only ever succeeds with responses
/// that echo the request's model and carry at least one choice, then a
/// successful dispatch returns such a response.
pub proof fn lemma_complete_success_shape<P: LLMProvider>(
    s: CompletionService<P>,
    req: CompletionRequest,
    r: Result<CompletionResponse, DomainError>,
)
    requires
        req.messages@.len() > 0,
        s.some_provider_declares(req.model@),
        s.dispatch_post(req, r),
        forall|i: int, resp: CompletionResponse|
            s.is_first_owner(req.model@, i) && (#[trigger] s.providers_seq()[i].complete_post(
                req,
                Ok(resp),
            )) ==> resp.model@ == req.model@ && resp.choices@.len() > 0,
    ensures
        r matches Ok(resp) ==> resp.model@ == req.model@ && resp.choices@.len() > 0,
{
    let i = choose|i: int| #[trigger]
        s.is_first_owner(req.model@, i) && s.providers_seq()[i].complete_post(req, r);
    match r {
        Ok(resp) => {
            assert(s.providers_seq()[i].complete_post(req, Ok(resp)));
        },
        Err(_) => {
        },
    }
}

} // verus!

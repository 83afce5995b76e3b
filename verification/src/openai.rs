//! OpenAI Chat Completions adapter core: the translation between the
//! domain model and OpenAI's wire schema, and the mapping of every upstream
//! outcome into the domain error taxonomy.
//!
//! The HTTP exchange itself, and the (de)serialization of the wire structs,
//! happen in the transport layer; it hands the raw outcome back as an
//! [`UpstreamOutcome`] and this module decides what it means.

use vstd::prelude::*;
use vstd::string::StrSliceExecFns;
use vstd::string::StringExecFns;

use crate::domain::ChatMessage;
use crate::domain::Choice;
use crate::domain::CompletionRequest;
use crate::domain::CompletionResponse;
use crate::domain::ModelInfo;
use crate::domain::Role;
use crate::domain::Usage;
use crate::error::DomainError;
use crate::ports::KeyStore;
use crate::text::dec_rep;
use crate::text::str_eq;
use crate::text::u16_decimal;

verus! {

// --- OpenAI wire schema ---

/// Chat-completion request as OpenAI's API expects it.
///
/// `temperature` is the IEEE 754 bit pattern carried through from the
/// domain request; the transport layer turns it into the wire number.
#[derive(Clone, Debug)]
pub struct OpenAIRequest {
    pub model: String,
    pub messages: Vec<OpenAIMessage>,
    pub temperature: Option<u32>,
    pub max_tokens: Option<u32>,
}

/// One message in OpenAI's wire schema: the role is a plain string.
#[derive(Clone, Debug)]
pub struct OpenAIMessage {
    pub role: String,
    pub content: String,
}

/// Chat-completion response as OpenAI's API returns it.
#[derive(Clone, Debug)]
pub struct OpenAIResponse {
    pub id: String,
    pub model: String,
    pub choices: Vec<OpenAIChoice>,
    pub usage: OpenAIUsage,
}

/// One choice in OpenAI's wire schema.
#[derive(Clone, Debug)]
pub struct OpenAIChoice {
    pub index: u32,
    pub message: OpenAIMessage,
    pub finish_reason: String,
}

/// Token usage in OpenAI's wire schema.
#[derive(Clone, Copy, Debug)]
pub struct OpenAIUsage {
    pub prompt_tokens: u32,
    pub completion_tokens: u32,
    pub total_tokens: u32,
}

// --- Role translation ---

/// The outbound role table: the vendor string sent for each domain role.
///
/// `System` goes out as `developer` (OpenAI's current name for it).
pub open spec fn wire_role(role: Role) -> Seq<char> {
    match role {
        Role::System => "developer"@,
        Role::User => "user"@,
        Role::Assistant => "assistant"@,
        Role::Tool => "tool"@,
    }
}

/// The inbound role table: the inverse of [`wire_role`] plus legacy
/// aliases (`system` for `System`, the deprecated `function` for `Tool`),
/// with an unrecognized string falling back to `User` rather than failing
/// the whole response.
pub open spec fn role_of_wire(s: Seq<char>) -> Role {
    if s == "system"@ || s == "developer"@ {
        Role::System
    } else if s == "user"@ {
        Role::User
    } else if s == "assistant"@ {
        Role::Assistant
    } else if s == "tool"@ || s == "function"@ {
        Role::Tool
    } else {
        Role::User
    }
}

/// Converts a domain role to an OpenAI API role string.
pub fn role_to_string(role: &Role) -> (r: &'static str)
    ensures
        r@ == wire_role(*role),
{
    match role {
        Role::System => "developer",
        Role::User => "user",
        Role::Assistant => "assistant",
        Role::Tool => "tool",
    }
}

/// Converts an OpenAI API role string to a domain role, leniently.
pub fn string_to_role(s: &str) -> (r: Role)
    ensures
        r == role_of_wire(s@),
{
    if str_eq(s, "system") || str_eq(s, "developer") {
        Role::System
    } else if str_eq(s, "user") {
        Role::User
    } else if str_eq(s, "assistant") {
        Role::Assistant
    } else if str_eq(s, "tool") || str_eq(s, "function") {
        Role::Tool
    } else {
        Role::User
    }
}

/// Encoding a role and decoding the resulting vendor string yields the
/// same role again; the aliases `system` and `developer` both decode to
/// `System`, and `function` still decodes to `Tool`.
pub proof fn lemma_role_round_trip(role: Role)
    ensures
        role_of_wire(wire_role(role)) == role,
        role_of_wire("system"@) == Role::System,
        role_of_wire("developer"@) == Role::System,
        role_of_wire("tool"@) == Role::Tool,
        role_of_wire("function"@) == Role::Tool,
{
    reveal_strlit("system");
    reveal_strlit("developer");
    reveal_strlit("user");
    reveal_strlit("assistant");
    reveal_strlit("tool");
    reveal_strlit("function");
    assert("system"@.len() == 6);
    assert("developer"@.len() == 9);
    assert("user"@.len() == 4);
    assert("assistant"@.len() == 9);
    assert("tool"@.len() == 4);
    assert("function"@.len() == 8);
    assert("assistant"@[0] == 'a' && "developer"@[0] == 'd');
    assert("assistant"@ != "developer"@);
    assert("tool"@[0] == 't' && "user"@[0] == 'u');
    assert("tool"@ != "user"@);
}

// --- Request translation ---

/// How one outbound message must read on the wire.
pub open spec fn translated_message(m: ChatMessage, w: OpenAIMessage) -> bool {
    w.role@ == wire_role(m.role) && w.content@ == m.content@
}

/// How an outbound request must read on the wire: same model, messages
/// translated in order, `temperature` and `max_tokens` passed through
/// verbatim (absent stays absent — no default is substituted).
pub open spec fn translated_request(req: CompletionRequest, w: OpenAIRequest) -> bool {
    &&& w.model@ == req.model@
    &&& w.messages@.len() == req.messages@.len()
    &&& forall|i: int|
        0 <= i < req.messages@.len() ==> #[trigger] translated_message(
            req.messages@[i],
            w.messages@[i],
        )
    &&& w.temperature == req.temperature
    &&& w.max_tokens == req.max_tokens
}

/// Translates a domain request into OpenAI's wire schema.
pub fn to_openai_request(req: &CompletionRequest) -> (r: OpenAIRequest)
    ensures
        translated_request(*req, r),
{
    let mut messages: Vec<OpenAIMessage> = Vec::new();
    let mut i: usize = 0;
    while i < req.messages.len()
        invariant
            i <= req.messages@.len(),
            messages@.len() == i,
            forall|j: int|
                0 <= j < i ==> #[trigger] translated_message(req.messages@[j], messages@[j]),
        decreases req.messages@.len() - i,
    {
        let m = &req.messages[i];
        messages.push(
            OpenAIMessage { role: role_to_string(&m.role).to_owned(), content: m.content.clone() },
        );
        i += 1;
    }
    OpenAIRequest {
        model: req.model.clone(),
        messages,
        temperature: req.temperature,
        max_tokens: req.max_tokens,
    }
}

// --- Response translation ---

/// How one inbound choice is translated: the index and finish reason are
/// preserved, the role string is decoded leniently.
pub open spec fn translated_choice(w: OpenAIChoice, c: Choice) -> bool {
    &&& c.index == w.index
    &&& c.message.role == role_of_wire(w.message.role@)
    &&& c.message.content@ == w.message.content@
    &&& c.finish_reason@ == w.finish_reason@
}

/// How an inbound wire response is translated into the domain response:
/// id and model verbatim, choices in order, usage passed through
/// unvalidated.
pub open spec fn translated_response(w: OpenAIResponse, c: CompletionResponse) -> bool {
    &&& c.id@ == w.id@
    &&& c.model@ == w.model@
    &&& c.choices@.len() == w.choices@.len()
    &&& forall|i: int|
        0 <= i < w.choices@.len() ==> #[trigger] translated_choice(w.choices@[i], c.choices@[i])
    &&& c.usage.prompt_tokens == w.usage.prompt_tokens
    &&& c.usage.completion_tokens == w.usage.completion_tokens
    &&& c.usage.total_tokens == w.usage.total_tokens
}

/// Translates OpenAI's wire response into the domain response.
pub fn from_openai_response(resp: OpenAIResponse) -> (r: CompletionResponse)
    ensures
        translated_response(resp, r),
{
    let mut choices: Vec<Choice> = Vec::new();
    let mut i: usize = 0;
    while i < resp.choices.len()
        invariant
            i <= resp.choices@.len(),
            choices@.len() == i,
            forall|j: int|
                0 <= j < i ==> #[trigger] translated_choice(resp.choices@[j], choices@[j]),
        decreases resp.choices@.len() - i,
    {
        let wc = &resp.choices[i];
        choices.push(
            Choice {
                index: wc.index,
                message: ChatMessage {
                    role: string_to_role(wc.message.role.as_str()),
                    content: wc.message.content.clone(),
                },
                finish_reason: wc.finish_reason.clone(),
            },
        );
        i += 1;
    }
    CompletionResponse {
        id: resp.id,
        model: resp.model,
        choices,
        usage: Usage {
            prompt_tokens: resp.usage.prompt_tokens,
            completion_tokens: resp.usage.completion_tokens,
            total_tokens: resp.usage.total_tokens,
        },
    }
}

// --- Upstream outcome interpretation ---

/// What came back from one attempt at the vendor's HTTP endpoint, reduced
/// to plain values by the transport layer:
///
/// - `TimedOut`: the connect/read timeout elapsed.
/// - `TransportFailed`: any other transport-level failure, with its
///   message.
/// - `HttpError`: a non-2xx status; `envelope_message` is the message
///   extracted from the vendor's JSON error envelope when that parsed,
///   `body` the raw response body.
/// - `Success`: a 2xx status whose body parsed into the wire schema.
/// - `MalformedBody`: a 2xx status whose body did not parse, with the
///   parse error's message.
pub enum UpstreamOutcome {
    TimedOut,
    TransportFailed(String),
    HttpError { status: u16, envelope_message: Option<String>, body: String },
    Success(OpenAIResponse),
    MalformedBody(String),
}

/// The detail reported for a non-2xx reply: the envelope message when the
/// envelope parsed, else the raw body.
pub open spec fn http_error_detail(envelope_message: Option<String>, body: String) -> Seq<char> {
    match envelope_message {
        Some(m) => m@,
        None => body@,
    }
}

/// The text of a `ProviderError` raised for a non-2xx status.
pub open spec fn provider_error_text(status: u16, detail: Seq<char>) -> Seq<char> {
    "OpenAI API error ("@ + dec_rep(status as int) + "): "@ + detail
}

/// The text of a `ProviderError` raised for an unparseable success body.
pub open spec fn parse_failure_text(detail: Seq<char>) -> Seq<char> {
    "failed to parse OpenAI response: "@ + detail
}

/// How each upstream outcome must be mapped into the domain.
pub open spec fn outcome_result(
    outcome: UpstreamOutcome,
    r: Result<CompletionResponse, DomainError>,
) -> bool {
    match outcome {
        UpstreamOutcome::TimedOut => r matches Err(DomainError::Timeout),
        UpstreamOutcome::TransportFailed(detail) => r matches Err(DomainError::ProviderError(m))
            && m@ == detail@,
        UpstreamOutcome::HttpError { status, envelope_message, body } => r matches Err(
            DomainError::ProviderError(m),
        ) && m@ == provider_error_text(status, http_error_detail(envelope_message, body)),
        UpstreamOutcome::Success(w) => r matches Ok(c) && translated_response(w, c),
        UpstreamOutcome::MalformedBody(detail) => r matches Err(DomainError::ProviderError(m))
            && m@ == parse_failure_text(detail@),
    }
}

/// Maps one upstream outcome into the domain: a timeout becomes
/// `Timeout` — and nothing else does —, every other failure becomes a
/// `ProviderError` carrying the most specific detail available, and a
/// parsed success body is translated into the domain response.
pub fn interpret_outcome(outcome: UpstreamOutcome) -> (r: Result<CompletionResponse, DomainError>)
    ensures
        outcome_result(outcome, r),
        (r matches Err(DomainError::Timeout)) <==> (outcome matches UpstreamOutcome::TimedOut),
{
    match outcome {
        UpstreamOutcome::TimedOut => Err(DomainError::Timeout),
        UpstreamOutcome::TransportFailed(detail) => Err(DomainError::ProviderError(detail)),
        UpstreamOutcome::HttpError { status, envelope_message, body } => {
            let detail = match envelope_message {
                Some(m) => m,
                None => body,
            };
            let mut text = String::from_str("OpenAI API error (");
            let status_digits = u16_decimal(status);
            text.append(status_digits.as_str());
            text.append("): ");
            text.append(detail.as_str());
            Err(DomainError::ProviderError(text))
        },
        UpstreamOutcome::Success(w) => Ok(from_openai_response(w)),
        UpstreamOutcome::MalformedBody(detail) => {
            let mut text = String::from_str("failed to parse OpenAI response: ");
            text.append(detail.as_str());
            Err(DomainError::ProviderError(text))
        },
    }
}

// --- The adapter's own state ---

/// The base endpoint used when no override is configured.
pub open spec fn resolved_base_url(base_url: Option<String>) -> Seq<char> {
    match base_url {
        Some(b) => b@,
        None => "https://api.openai.com"@,
    }
}

/// OpenAI adapter state: the resolved endpoint and credential.
///
/// The HTTP client itself lives with the transport layer; this holds what
/// the core resolves and computes.
pub struct OpenAIProvider {
    base_url: String,
    api_key: String,
}

impl OpenAIProvider {
    /// The endpoint this adapter was constructed with.
    pub closed spec fn spec_base_url(&self) -> Seq<char> {
        self.base_url@
    }

    /// The credential this adapter was constructed with.
    pub closed spec fn spec_api_key(&self) -> Seq<char> {
        self.api_key@
    }

    /// Creates a new adapter, resolving the credential for `openai`
    /// through the key store. When the store has no key for `openai` this
    /// fails with `KeyNotFound("openai")` — construction performs no
    /// network work, so a missing credential can never reach the vendor.
    /// `base_url` overrides the vendor's public endpoint when present.
    pub fn new<K: KeyStore>(key_store: &K, base_url: Option<String>) -> (r: Result<
        OpenAIProvider,
        DomainError,
    >)
        ensures
            match key_store.key_spec("openai"@) {
                Some(k) => r matches Ok(prov) && prov.spec_api_key() == k
                    && prov.spec_base_url() == resolved_base_url(base_url),
                None => r matches Err(e) && (e matches DomainError::KeyNotFound(name) && name@
                    == "openai"@),
            },
    {
        let api_key = match key_store.get_key("openai") {
            Ok(k) => k,
            Err(e) => {
                return Err(e);
            },
        };
        let base_url = match base_url {
            Some(b) => b,
            None => String::from_str("https://api.openai.com"),
        };
        Ok(OpenAIProvider { base_url, api_key })
    }

    /// The model identifiers of the static catalog, in order.
    pub open spec fn catalog_ids() -> Seq<Seq<char>> {
        seq!["gpt-5.2"@, "gpt-5"@, "gpt-5-mini"@, "o4-mini"@, "o3"@]
    }

    /// One catalog entry: a model id owned and provided by `openai`.
    pub open spec fn catalog_entry(m: ModelInfo, id: Seq<char>) -> bool {
        m.id@ == id && m.provider@ == "openai"@ && m.owned_by@ == "openai"@
    }

    /// The static, hardcoded catalog of models this adapter declares; no
    /// discovery call is made.
    pub fn models(&self) -> (r: Vec<ModelInfo>)
        ensures
            r@.len() == Self::catalog_ids().len(),
            forall|i: int|
                0 <= i < r@.len() ==> #[trigger] Self::catalog_entry(r@[i], Self::catalog_ids()[i]),
    {
        let mut r: Vec<ModelInfo> = Vec::new();
        r.push(
            ModelInfo {
                id: String::from_str("gpt-5.2"),
                provider: String::from_str("openai"),
                owned_by: String::from_str("openai"),
            },
        );
        r.push(
            ModelInfo {
                id: String::from_str("gpt-5"),
                provider: String::from_str("openai"),
                owned_by: String::from_str("openai"),
            },
        );
        r.push(
            ModelInfo {
                id: String::from_str("gpt-5-mini"),
                provider: String::from_str("openai"),
                owned_by: String::from_str("openai"),
            },
        );
        r.push(
            ModelInfo {
                id: String::from_str("o4-mini"),
                provider: String::from_str("openai"),
                owned_by: String::from_str("openai"),
            },
        );
        r.push(
            ModelInfo {
                id: String::from_str("o3"),
                provider: String::from_str("openai"),
                owned_by: String::from_str("openai"),
            },
        );
        r
    }

    /// The vendor identifier.
    pub fn provider_name(&self) -> (r: &'static str)
        ensures
            r@ == "openai"@,
    {
        "openai"
    }

    /// The full chat-completions URL for this adapter's endpoint.
    pub fn complete_url(&self) -> (r: String)
        ensures
            r@ == self.spec_base_url() + "/v1/chat/completions"@,
    {
        let mut r = self.base_url.clone();
        r.append("/v1/chat/completions");
        r
    }

    /// The `Authorization` header value for this adapter's credential.
    pub fn auth_header_value(&self) -> (r: String)
        ensures
            r@ == "Bearer "@ + self.spec_api_key(),
    {
        let mut r = String::from_str("Bearer ");
        r.append(self.api_key.as_str());
        r
    }
}

} // verus!

//! The per-request orchestration state machine.
//!
//! One `StreamContext` drives one inbound chat-completion request through
//! provider selection, body normalization, the optional jailbreak guard, the
//! embedding and zero-shot intent stages, tool resolution and invocation,
//! the rate-limit gate, and response token accounting. Every outbound call
//! suspends the request: a handler returns the call to make, the host
//! replies with an opaque token, and the reply is matched back by it.
//!
//! The host shell performs the I/O: it serializes the call bodies the
//! actions carry, dispatches them, parses replies, and feeds them back in.
//! Every decision between those edges is made here and stated in contracts.

use crate::catalog::EmbeddingCatalog;
use crate::common_types::CreateEmbeddingRequest;
use crate::common_types::PromptGuardRequest;
use crate::common_types::PromptGuardResponse;
use crate::common_types::PromptGuardTask;
use crate::common_types::ZeroShotClassificationRequest;
use crate::common_types::ZeroShotClassificationResponse;
use crate::configuration::Header;
use crate::configuration::Method;
use crate::configuration::Overrides;
use crate::configuration::PromptGuards;
use crate::configuration::PromptTarget;
use crate::configuration::targets_unique;
use crate::consts::DEFAULT_PROMPT_TARGET_THRESHOLD;
use crate::consts::LONG_CALL_TIMEOUT_S;
use crate::consts::SCORE_SCALE;
use crate::consts::SHORT_CALL_TIMEOUT_S;
use crate::headers::HeadersOutcome;
use crate::headers::h_contains;
use crate::headers::h_lookup;
use crate::headers::no_provider_key_remains;
use crate::headers::process_request_headers;
use crate::open_ai::ChatCompletionsRequest;
use crate::open_ai::ChatCompletionsResponse;
use crate::open_ai::ChatCompletionChunkResponse;
use crate::open_ai::Message;
use crate::open_ai::StreamOptions;
use crate::routing::LlmProviders;
use crate::stats::WasmMetrics;
use crate::token_map::TokenMap;
use vstd::prelude::*;

verus! {

/// Which handler a pending outbound call's reply is dispatched on.
#[derive(Clone, Copy, Debug, PartialEq, Eq, Structural)]
pub enum ResponseHandlerType {
    GetEmbeddings,
    FunctionResolver,
    FunctionCall,
    ZeroShotIntent,
    CurveGuard,
}

/// The state carried across one outbound call of one request.
pub struct CallContext {
    pub response_handler_type: ResponseHandlerType,
    pub user_message: Option<String>,
    pub prompt_target_name: Option<String>,
    pub request_body: ChatCompletionsRequest,
    pub similarity_scores: Option<Vec<(String, i64)>>,
    pub up_stream_cluster: Option<String>,
    pub up_stream_cluster_path: Option<String>,
}

/// The body an outbound call carries; the shell serializes it.
pub enum CallBody {
    Embeddings(CreateEmbeddingRequest),
    Guard(PromptGuardRequest),
    ZeroShot(ZeroShotClassificationRequest),
    Resolver(ChatCompletionsRequest),
    /// Tool arguments as an ordered list, or no body for a query-string
    /// invocation.
    Tool(Option<Vec<(String, crate::common_types::IntOrString)>>),
}

/// One outbound HTTP call for the shell to dispatch.
pub struct HttpCallSpec {
    pub cluster: String,
    pub path: String,
    pub method: Method,
    pub timeout_secs: u64,
    pub body: CallBody,
}

/// `out` is `orig` with the model overwritten and, for a streaming request,
/// usage reporting forced on; everything else is untouched.
pub open spec fn normalize_rel(
    orig: ChatCompletionsRequest,
    out: ChatCompletionsRequest,
    model: Seq<char>,
) -> bool {
    &&& out.model@ == model
    &&& out.messages == orig.messages
    &&& out.tools == orig.tools
    &&& out.stream == orig.stream
    &&& out.stream_options == if orig.stream {
        Some(StreamOptions { include_usage: true })
    } else {
        orig.stream_options
    }
}

/// The invariants of a body about to be forwarded: the selected provider's
/// model, and usage reporting on streaming requests.
pub open spec fn body_normalized(req: ChatCompletionsRequest, model: Seq<char>) -> bool {
    &&& req.model@ == model
    &&& req.stream ==> req.stream_options == Some(StreamOptions { include_usage: true })
}

/// Pass-through round trip: a normalized body is the inbound body in every
/// part but the overwritten model and the streaming usage option. What is
/// forwarded for a request that matched no intent differs from what came in
/// only by those two normalizations.
pub proof fn lemma_passthrough_round_trip(
    orig: ChatCompletionsRequest,
    out: ChatCompletionsRequest,
    model: Seq<char>,
)
    requires
        normalize_rel(orig, out, model),
    ensures
        out.messages == orig.messages,
        out.tools == orig.tools,
        out.stream == orig.stream,
        out.model@ == model,
        !orig.stream ==> out.stream_options == orig.stream_options,
        orig.stream ==> out.stream_options == Some(StreamOptions { include_usage: true }),
{
}

/// Forward invariants: a normalized body carries the selected provider's
/// model, and a streaming body asserts usage reporting.
pub proof fn lemma_normalized_body_invariants(
    orig: ChatCompletionsRequest,
    out: ChatCompletionsRequest,
    model: Seq<char>,
)
    requires
        normalize_rel(orig, out, model),
    ensures
        body_normalized(out, model),
{
}

/// Every similarity score is within one unit.
pub open spec fn scores_bounded(s: Seq<(String, i64)>) -> bool {
    forall|i: int| 0 <= i < s.len() ==> -SCORE_SCALE <= (#[trigger] s[i]).1 <= SCORE_SCALE
}

/// The scores list carries one entry per configured prompt target, in
/// configuration order.
pub open spec fn scores_match_targets(s: Seq<(String, i64)>, targets: Seq<PromptTarget>) -> bool {
    &&& s.len() == targets.len()
    &&& forall|i: int| 0 <= i < s.len() ==> (#[trigger] s[i]).0@ == targets[i].name@
}

/// The score recorded under a name, if any (first match).
pub open spec fn score_of(s: Seq<(String, i64)>, name: Seq<char>) -> Option<i64>
    decreases s.len(),
{
    if s.len() == 0 {
        None
    } else if s[0].0@ == name {
        Some(s[0].1)
    } else {
        score_of(s.drop_first(), name)
    }
}

/// The per-request state machine.
pub struct StreamContext {
    context_id: u32,
    metrics: WasmMetrics,
    prompt_targets: Vec<PromptTarget>,
    embeddings_store: EmbeddingCatalog,
    overrides: Option<Overrides>,
    prompt_guards: Option<PromptGuards>,
    llm_providers: LlmProviders,
    callouts: TokenMap<CallContext>,
    pending: Option<CallContext>,
    ratelimit_selector: Option<Header>,
    streaming_response: bool,
    response_tokens: u64,
    chat_completions_request: bool,
    llm_provider: Option<usize>,
}

impl StreamContext {
    pub closed spec fn spec_context_id(self) -> u32 {
        self.context_id
    }

    pub closed spec fn spec_metrics(self) -> WasmMetrics {
        self.metrics
    }

    pub closed spec fn spec_prompt_targets(self) -> Seq<PromptTarget> {
        self.prompt_targets@
    }

    pub closed spec fn spec_catalog(self) -> EmbeddingCatalog {
        self.embeddings_store
    }

    pub closed spec fn spec_overrides(self) -> Option<Overrides> {
        self.overrides
    }

    pub closed spec fn spec_prompt_guards(self) -> Option<PromptGuards> {
        self.prompt_guards
    }

    pub closed spec fn spec_providers(self) -> LlmProviders {
        self.llm_providers
    }

    pub closed spec fn spec_callouts(self) -> TokenMap<CallContext> {
        self.callouts
    }

    pub closed spec fn spec_pending(self) -> Option<CallContext> {
        self.pending
    }

    pub closed spec fn spec_ratelimit_selector(self) -> Option<Header> {
        self.ratelimit_selector
    }

    pub closed spec fn spec_streaming_response(self) -> bool {
        self.streaming_response
    }

    pub closed spec fn spec_response_tokens(self) -> u64 {
        self.response_tokens
    }

    pub closed spec fn spec_chat_completions_request(self) -> bool {
        self.chat_completions_request
    }

    pub closed spec fn spec_provider_index(self) -> Option<usize> {
        self.llm_provider
    }

    /// The model of the selected provider; meaningful once the headers
    /// stage has selected one.
    pub open spec fn spec_selected_model(self) -> Seq<char> {
        match self.spec_provider_index() {
            Some(i) => self.spec_providers()@[i as int].model@,
            None => Seq::<char>::empty(),
        }
    }

    /// The invariants a stored call context keeps between suspensions.
    pub open spec fn ctx_wf(self, ctx: CallContext) -> bool {
        &&& body_normalized(ctx.request_body, self.spec_selected_model())
        &&& ctx.user_message is Some
        &&& match ctx.similarity_scores {
            Some(s) => scores_bounded(s@) && scores_match_targets(
                s@,
                self.spec_prompt_targets(),
            ),
            None => true,
        }
        &&& ctx.response_handler_type == ResponseHandlerType::ZeroShotIntent
            ==> ctx.similarity_scores is Some
        &&& (ctx.response_handler_type == ResponseHandlerType::FunctionResolver
            || ctx.response_handler_type == ResponseHandlerType::FunctionCall)
            ==> (ctx.prompt_target_name matches Some(n) && crate::configuration::target_of(
            self.spec_prompt_targets(),
            n@,
        ) is Some)
        &&& ctx.response_handler_type == ResponseHandlerType::FunctionCall
            ==> ctx.up_stream_cluster is Some && ctx.up_stream_cluster_path is Some
    }

    /// The state invariant of one request.
    pub open spec fn wf(self) -> bool {
        &&& self.spec_callouts().wf()
        &&& self.spec_providers().wf()
        &&& self.spec_catalog().wf()
        &&& targets_unique(self.spec_prompt_targets())
        &&& match self.spec_provider_index() {
            Some(i) => i < self.spec_providers()@.len(),
            None => true,
        }
        &&& forall|j: int|
            0 <= j < self.spec_callouts()@.len() ==> self.ctx_wf(
                (#[trigger] self.spec_callouts()@[j]).1,
            )
        &&& match self.spec_pending() {
            Some(ctx) => self.ctx_wf(ctx),
            None => true,
        }
    }

    /// A fresh request state, holding its shared read-only collaborators.
    pub fn new(
        context_id: u32,
        metrics: WasmMetrics,
        prompt_targets: Vec<PromptTarget>,
        prompt_guards: Option<PromptGuards>,
        overrides: Option<Overrides>,
        llm_providers: LlmProviders,
        embeddings_store: EmbeddingCatalog,
    ) -> (r: StreamContext)
        requires
            llm_providers.wf(),
            embeddings_store.wf(),
            targets_unique(prompt_targets@),
        ensures
            r.wf(),
            r.spec_context_id() == context_id,
            r.spec_prompt_targets() == prompt_targets@,
            r.spec_catalog() == embeddings_store,
            r.spec_prompt_guards() == prompt_guards,
            r.spec_overrides() == overrides,
            r.spec_providers() == llm_providers,
            r.spec_callouts()@.len() == 0,
            r.spec_pending() is None,
            r.spec_ratelimit_selector() is None,
            !r.spec_streaming_response(),
            r.spec_response_tokens() == 0,
            !r.spec_chat_completions_request(),
            r.spec_provider_index() is None,
    {
        StreamContext {
            context_id,
            metrics,
            prompt_targets,
            embeddings_store,
            overrides,
            prompt_guards,
            llm_providers,
            callouts: TokenMap::new(),
            pending: None,
            ratelimit_selector: None,
            streaming_response: false,
            response_tokens: 0,
            chat_completions_request: false,
            llm_provider: None,
        }
    }

    /// Whether a prompt target of the name is configured.
    pub fn has_prompt_target(&self, name: &String) -> (r: bool)
        ensures
            r == (crate::configuration::target_of(self.spec_prompt_targets(), name@) is Some),
    {
        crate::configuration::find_target(&self.prompt_targets, name).is_some()
    }

    /// The handler tag of the call pending under the token, if any.
    pub fn pending_handler(&self, token_id: u32) -> (r: Option<ResponseHandlerType>)
        requires
            self.wf(),
        ensures
            match r {
                Some(t) => self.spec_callouts().spec_get(token_id) matches Some(ctx)
                    && ctx.response_handler_type == t,
                None => self.spec_callouts().spec_get(token_id) is None,
            },
    {
        match self.callouts.get_ref(token_id) {
            Some(ctx) => Some(ctx.response_handler_type),
            None => None,
        }
    }

    /// The provider the headers stage selected; meaningful once it ran.
    pub fn llm_provider(&self) -> (r: Option<&crate::configuration::LlmProvider>)
        requires
            self.wf(),
        ensures
            match r {
                Some(p) => self.spec_provider_index() matches Some(i) && *p == self.spec_providers()@[
                    i as int
                ],
                None => self.spec_provider_index() is None,
            },
    {
        match self.llm_provider {
            Some(i) => Some(self.llm_providers.get(i)),
            None => None,
        }
    }

    /// The number of calls in flight for this request.
    pub fn active_callouts(&self) -> (r: usize)
        ensures
            r == self.spec_callouts()@.len(),
    {
        self.callouts.len()
    }

    /// The request's stream identifier, as the host minted it.
    pub fn context_id(&self) -> (r: u32)
        ensures
            r == self.spec_context_id(),
    {
        self.context_id
    }

    /// The gauge of in-flight outbound calls.
    pub fn active_http_calls_value(&self) -> (r: i64)
        ensures
            r == self.spec_metrics().active_http_calls.value,
    {
        self.metrics.active_http_calls.value
    }

    /// The count of requests rejected by the rate limiter.
    pub fn ratelimited_rq_value(&self) -> (r: u64)
        ensures
            r == self.spec_metrics().ratelimited_rq.value,
    {
        self.metrics.ratelimited_rq.value
    }

    /// The running count of response tokens observed so far.
    pub fn response_tokens(&self) -> (r: u64)
        ensures
            r == self.spec_response_tokens(),
    {
        self.response_tokens
    }

    /// Whether the response is streamed.
    pub fn streaming_response(&self) -> (r: bool)
        ensures
            r == self.spec_streaming_response(),
    {
        self.streaming_response
    }
}

/// What the headers stage asks the shell to do.
pub enum RequestHeadersAction {
    /// Hand the rewritten header list to the host and continue.
    Rewritten { headers: Vec<(String, String)> },
    /// Short-circuit with an error response.
    SendError { status: u16, message: String },
}

impl StreamContext {
    /// The headers stage: selects the provider, rewrites the header list
    /// and captures the rate-limit selector.
    ///
    /// After it, either the rewritten headers carry a bearer token exactly
    /// when the selected provider's api-key header was inbound, with every
    /// configured api-key header scrubbed, or the stage failed for want of
    /// that api key and asks for a 400.
    pub fn on_http_request_headers(&mut self, inbound: &Vec<(String, String)>) -> (r:
        RequestHeadersAction)
        requires
            old(self).wf(),
            old(self).spec_callouts()@.len() == 0,
            old(self).spec_pending() is None,
        ensures
            final(self).wf(),
            final(self).spec_callouts()@.len() == 0,
            final(self).spec_pending() is None,
            ({
                let hint = h_contains(inbound@, crate::consts::spec_deterministic_provider_header());
                let idx = old(self).spec_providers().spec_selected_index(hint);
                let sel = old(self).spec_providers()@[idx];
                &&& final(self).spec_provider_index() matches Some(i) && i as int == idx
                &&& final(self).spec_providers() == old(self).spec_providers()
                &&& final(self).spec_prompt_targets() == old(self).spec_prompt_targets()
                &&& final(self).spec_catalog() == old(self).spec_catalog()
                &&& final(self).spec_prompt_guards() == old(self).spec_prompt_guards()
                &&& final(self).spec_overrides() == old(self).spec_overrides()
                &&& final(self).spec_response_tokens() == old(self).spec_response_tokens()
                &&& match r {
                    RequestHeadersAction::Rewritten { headers } => {
                        &&& match sel.access_key {
                            Some(k) => h_lookup(inbound@, k@) is Some && h_lookup(
                                headers@,
                                "Authorization"@,
                            ) == Some("Bearer "@ + h_lookup(inbound@, k@).unwrap()),
                            None => false,
                        }
                        &&& no_provider_key_remains(headers@, old(self).spec_providers()@)
                        &&& !h_contains(headers@, "content-length"@)
                        &&& h_lookup(headers@, crate::consts::spec_routing_header()) == Some(
                            sel.name@,
                        )
                        &&& match h_lookup(
                            headers@,
                            crate::consts::spec_ratelimit_selector_header_key(),
                        ) {
                            Some(key) => match final(self).spec_ratelimit_selector() {
                                Some(selector) => selector.key@ == key && match h_lookup(
                                    headers@,
                                    key,
                                ) {
                                    Some(v) => selector.value matches Some(sv) && sv@ == v,
                                    None => false,
                                },
                                None => h_lookup(headers@, key) is None,
                            },
                            None => final(self).spec_ratelimit_selector() is None,
                        }
                    },
                    RequestHeadersAction::SendError { status, message } => {
                        &&& status == 400
                        &&& match sel.access_key {
                            Some(k) => h_lookup(inbound@, k@) is None,
                            None => true,
                        }
                        &&& final(self).spec_ratelimit_selector() == old(
                            self,
                        ).spec_ratelimit_selector()
                    },
                }
            }),
    {
        let outcome = process_request_headers(inbound, &self.llm_providers);
        match outcome {
            Ok(out) => {
                let HeadersOutcome { headers, provider_index, ratelimit_selector } = out;
                self.llm_provider = Some(provider_index);
                self.ratelimit_selector = ratelimit_selector;
                RequestHeadersAction::Rewritten { headers }
            },
            Err(message) => {
                let hint = crate::headers::header_get(
                    inbound,
                    crate::consts::deterministic_provider_header(),
                ).is_some();
                let provider_index: usize = if hint {
                    0
                } else {
                    self.llm_providers.default_index()
                };
                self.llm_provider = Some(provider_index);
                RequestHeadersAction::SendError { status: 400, message }
            },
        }
    }
}

/// What a handler's outbound dispatch came to.
#[derive(Clone, Copy, Debug, PartialEq, Eq, Structural)]
pub enum CommitOutcome {
    /// The call context is filed under the token.
    Committed,
    /// The host minted a token this request already holds: a program bug,
    /// fatal to the request.
    DuplicateToken,
    /// No dispatch was staged: a protocol misuse by the caller.
    NoPendingCall,
}

impl StreamContext {
    /// Files the staged call context under the token the host minted for
    /// the dispatched call, and counts the call in flight.
    pub fn commit_dispatch(&mut self, token_id: u32) -> (r: CommitOutcome)
        requires
            old(self).wf(),
            old(self).spec_metrics().active_http_calls.value < i64::MAX,
        ensures
            final(self).wf(),
            match old(self).spec_pending() {
                None => r == CommitOutcome::NoPendingCall && *final(self) == *old(self),
                Some(ctx) => {
                    if old(self).spec_callouts().spec_contains(token_id) {
                        r == CommitOutcome::DuplicateToken && *final(self) == *old(self)
                    } else {
                        &&& r == CommitOutcome::Committed
                        &&& final(self).spec_callouts()@ === old(self).spec_callouts()@.push(
                            (token_id, ctx),
                        )
                        &&& final(self).spec_pending() is None
                        &&& final(self).spec_metrics().active_http_calls.value == old(
                            self,
                        ).spec_metrics().active_http_calls.value + 1
                        &&& final(self).spec_metrics().ratelimited_rq == old(
                            self,
                        ).spec_metrics().ratelimited_rq
                        &&& final(self).spec_provider_index() == old(self).spec_provider_index()
                        &&& final(self).spec_ratelimit_selector() == old(
                            self,
                        ).spec_ratelimit_selector()
                        &&& final(self).spec_streaming_response() == old(
                            self,
                        ).spec_streaming_response()
                        &&& final(self).spec_response_tokens() == old(self).spec_response_tokens()
                        &&& final(self).spec_chat_completions_request() == old(
                            self,
                        ).spec_chat_completions_request()
                        &&& final(self).spec_prompt_targets() == old(self).spec_prompt_targets()
                        &&& final(self).spec_providers() == old(self).spec_providers()
                        &&& final(self).spec_catalog() == old(self).spec_catalog()
                        &&& final(self).spec_prompt_guards() == old(self).spec_prompt_guards()
                        &&& final(self).spec_overrides() == old(self).spec_overrides()
                    }
                },
            },
    {
        if self.callouts.contains(token_id) {
            match &self.pending {
                Some(_) => {
                    return CommitOutcome::DuplicateToken;
                },
                None => {
                    return CommitOutcome::NoPendingCall;
                },
            }
        }
        let staged = self.pending.take();
        match staged {
            Some(ctx) => {
                let fresh = self.callouts.insert(token_id, ctx);
                proof {
                    assert(fresh);
                }
                self.metrics.active_http_calls.increment(1);
                CommitOutcome::Committed
            },
            None => CommitOutcome::NoPendingCall,
        }
    }

    /// Drops the staged call context after a failed dispatch; reports
    /// whether one was staged.
    pub fn abort_dispatch(&mut self) -> (r: bool)
        requires
            old(self).wf(),
        ensures
            final(self).wf(),
            r == (old(self).spec_pending() is Some),
            final(self).spec_pending() is None,
            final(self).spec_callouts() == old(self).spec_callouts(),
            final(self).spec_metrics() == old(self).spec_metrics(),
            final(self).spec_provider_index() == old(self).spec_provider_index(),
            final(self).spec_ratelimit_selector() == old(self).spec_ratelimit_selector(),
            final(self).spec_response_tokens() == old(self).spec_response_tokens(),
    {
        let staged = self.pending.take();
        staged.is_some()
    }

    /// Surrenders the call context filed under a replied token, and counts
    /// the call done. An unknown token is fatal for the request; the shell
    /// checks with `pending_handler` first.
    pub fn take_callout(&mut self, token_id: u32) -> (r: Option<CallContext>)
        requires
            old(self).wf(),
            old(self).spec_metrics().active_http_calls.value > i64::MIN,
        ensures
            final(self).wf(),
            r == old(self).spec_callouts().spec_get(token_id),
            !final(self).spec_callouts().spec_contains(token_id),
            r is Some ==> final(self).spec_metrics().active_http_calls.value == old(
                self,
            ).spec_metrics().active_http_calls.value - 1,
            r is Some ==> final(self).ctx_wf(r.unwrap()),
            r is None ==> final(self).spec_callouts()@ === old(self).spec_callouts()@
                && final(self).spec_metrics() == old(self).spec_metrics(),
            final(self).spec_pending() == old(self).spec_pending(),
            final(self).spec_provider_index() == old(self).spec_provider_index(),
            final(self).spec_ratelimit_selector() == old(self).spec_ratelimit_selector(),
            final(self).spec_streaming_response() == old(self).spec_streaming_response(),
            final(self).spec_response_tokens() == old(self).spec_response_tokens(),
            final(self).spec_chat_completions_request() == old(self).spec_chat_completions_request(),
            final(self).spec_prompt_targets() == old(self).spec_prompt_targets(),
            final(self).spec_providers() == old(self).spec_providers(),
            final(self).spec_catalog() == old(self).spec_catalog(),
            final(self).spec_prompt_guards() == old(self).spec_prompt_guards(),
            final(self).spec_overrides() == old(self).spec_overrides(),
            final(self).spec_metrics().ratelimited_rq == old(self).spec_metrics().ratelimited_rq,
    {
        proof {
            if old(self).spec_callouts().spec_contains(token_id) {
                let s = old(self).spec_callouts()@;
                let j = choose|j: int| 0 <= j < s.len() && (#[trigger] s[j]).0 == token_id;
            }
        }
        let ghost old_self = *self;
        let r = self.callouts.remove(token_id);
        match &r {
            Some(_) => {
                self.metrics.active_http_calls.increment(-1);
            },
            None => {},
        }
        proof {
            assert forall|j: int| 0 <= j < self.callouts@.len() implies self.ctx_wf(
                (#[trigger] self.callouts@[j]).1,
            ) by {
                assert(old_self.callouts@.contains(self.callouts@[j]));
                let i = choose|i: int|
                    0 <= i < old_self.callouts@.len() && old_self.callouts@[i] == self.callouts@[j];
                assert(old_self.ctx_wf(old_self.callouts@[i].1));
            }
        }
        r
    }
}

/// What the request-body stage asks the shell to do.
pub enum RequestBodyAction {
    /// Keep buffering until end of stream.
    Pause,
    /// Not intercepted: let the request continue unchanged.
    PassThrough,
    /// Short-circuit with an error response.
    SendError { status: u16, message: String },
    /// Dispatch the jailbreak guard call and suspend.
    DispatchGuard { call: HttpCallSpec },
    /// Dispatch the user-turn embedding call and suspend.
    DispatchEmbeddings { call: HttpCallSpec },
}

impl StreamContext {
    /// Whether a jailbreak input guard is configured.
    pub open spec fn spec_guard_jailbreak(self) -> bool {
        match self.spec_prompt_guards() {
            Some(g) => g.spec_has_jailbreak_guard(),
            None => false,
        }
    }

    /// The body stage: buffers to end of stream, decodes, normalizes and
    /// decides between guard, embeddings and pass-through.
    ///
    /// `parsed` is the decoded chat-completion body, handed in exactly when
    /// the stream ended with bytes in it; a decode failure carries the
    /// decoder's message. The normalized body (provider model written in,
    /// usage reporting forced on streaming requests) travels in the staged
    /// call context; a request whose last message has no content passes
    /// through unchanged.
    pub fn on_http_request_body(
        &mut self,
        body_size: usize,
        end_of_stream: bool,
        parsed: Option<Result<ChatCompletionsRequest, String>>,
    ) -> (r: RequestBodyAction)
        requires
            old(self).wf(),
            old(self).spec_provider_index() is Some,
            old(self).spec_pending() is None,
            (parsed is Some) == (end_of_stream && body_size > 0),
        ensures
            final(self).wf(),
            final(self).spec_callouts() == old(self).spec_callouts(),
            final(self).spec_metrics() == old(self).spec_metrics(),
            final(self).spec_provider_index() == old(self).spec_provider_index(),
            final(self).spec_ratelimit_selector() == old(self).spec_ratelimit_selector(),
            final(self).spec_response_tokens() == old(self).spec_response_tokens(),
            final(self).spec_prompt_targets() == old(self).spec_prompt_targets(),
            final(self).spec_providers() == old(self).spec_providers(),
            final(self).spec_catalog() == old(self).spec_catalog(),
            final(self).spec_prompt_guards() == old(self).spec_prompt_guards(),
            final(self).spec_overrides() == old(self).spec_overrides(),
            match r {
                RequestBodyAction::Pause => {
                    &&& !end_of_stream
                    &&& final(self).spec_pending() is None
                    &&& final(self).spec_chat_completions_request() == old(
                        self,
                    ).spec_chat_completions_request()
                },
                RequestBodyAction::PassThrough => {
                    &&& end_of_stream
                    &&& final(self).spec_pending() is None
                    &&& (body_size == 0 || (parsed matches Some(Ok(req)) && (req.messages@.len()
                        == 0 || req.messages@.last().content is None)))
                },
                RequestBodyAction::SendError { status, message } => {
                    &&& status == 400
                    &&& parsed matches Some(Err(_))
                    &&& final(self).spec_pending() is None
                },
                RequestBodyAction::DispatchGuard { call } => {
                    &&& old(self).spec_guard_jailbreak()
                    &&& parsed matches Some(Ok(req)) && (req.messages@.len() > 0
                        && (req.messages@.last().content matches Some(content) && {
                        &&& call.cluster@ == "model_server"@
                        &&& call.path@ == "/guard"@
                        &&& call.method == Method::Post
                        &&& call.timeout_secs == LONG_CALL_TIMEOUT_S
                        &&& call.body matches CallBody::Guard(g) && g.input@ == content@
                            && g.task == PromptGuardTask::Jailbreak
                        &&& final(self).spec_pending() matches Some(ctx) && {
                            &&& ctx.response_handler_type == ResponseHandlerType::CurveGuard
                            &&& ctx.user_message matches Some(u) && u@ == content@
                            &&& normalize_rel(req, ctx.request_body, old(self).spec_selected_model())
                            &&& ctx.similarity_scores is None
                        }
                        &&& final(self).spec_chat_completions_request()
                        &&& final(self).spec_streaming_response() == req.stream
                    }))
                },
                RequestBodyAction::DispatchEmbeddings { call } => {
                    &&& !old(self).spec_guard_jailbreak()
                    &&& parsed matches Some(Ok(req)) && (req.messages@.len() > 0
                        && (req.messages@.last().content matches Some(content) && {
                        &&& call.cluster@ == "model_server"@
                        &&& call.path@ == "/embeddings"@
                        &&& call.method == Method::Post
                        &&& call.timeout_secs == LONG_CALL_TIMEOUT_S
                        &&& call.body matches CallBody::Embeddings(e) && e.input@ == content@
                            && e.model@ == "text-embedding"@
                        &&& final(self).spec_pending() matches Some(ctx) && {
                            &&& ctx.response_handler_type == ResponseHandlerType::GetEmbeddings
                            &&& ctx.user_message matches Some(u) && u@ == content@
                            &&& normalize_rel(req, ctx.request_body, old(self).spec_selected_model())
                            &&& ctx.similarity_scores is None
                        }
                        &&& final(self).spec_chat_completions_request()
                        &&& final(self).spec_streaming_response() == req.stream
                    }))
                },
            },
    {
        if !end_of_stream {
            return RequestBodyAction::Pause;
        }
        if body_size == 0 {
            return RequestBodyAction::PassThrough;
        }
        let decoded = match parsed {
            Some(Ok(req)) => req,
            Some(Err(msg)) => {
                let mut message = String::from_str("Failed to deserialize: ");
                message.append(msg.as_str());
                return RequestBodyAction::SendError { status: 400, message };
            },
            None => {
                return RequestBodyAction::PassThrough;
            },
        };
        let mut req = decoded;

        // overwrite the model with the selected provider's, and force usage
        // reporting on streaming requests
        let provider_index = match self.llm_provider {
            Some(i) => i,
            None => 0,
        };
        req.model = self.llm_providers.get(provider_index).model.clone();
        if req.stream {
            req.stream_options = Some(StreamOptions { include_usage: true });
        }
        self.chat_completions_request = true;
        self.streaming_response = req.stream;

        if req.messages.len() == 0 {
            return RequestBodyAction::PassThrough;
        }
        let user_message: String = match &req.messages[req.messages.len() - 1].content {
            Some(c) => c.clone(),
            None => {
                return RequestBodyAction::PassThrough;
            },
        };

        let jailbreak = match &self.prompt_guards {
            Some(g) => g.has_jailbreak_guard(),
            None => false,
        };

        if jailbreak {
            let ctx = CallContext {
                response_handler_type: ResponseHandlerType::CurveGuard,
                user_message: Some(user_message.clone()),
                prompt_target_name: None,
                request_body: req,
                similarity_scores: None,
                up_stream_cluster: None,
                up_stream_cluster_path: None,
            };
            self.pending = Some(ctx);
            let call = HttpCallSpec {
                cluster: String::from_str(crate::consts::model_server_name()),
                path: String::from_str("/guard"),
                method: Method::Post,
                timeout_secs: LONG_CALL_TIMEOUT_S,
                body: CallBody::Guard(
                    PromptGuardRequest { input: user_message, task: PromptGuardTask::Jailbreak },
                ),
            };
            RequestBodyAction::DispatchGuard { call }
        } else {
            let ctx = CallContext {
                response_handler_type: ResponseHandlerType::GetEmbeddings,
                user_message: Some(user_message.clone()),
                prompt_target_name: None,
                request_body: req,
                similarity_scores: None,
                up_stream_cluster: None,
                up_stream_cluster_path: None,
            };
            self.pending = Some(ctx);
            let call = HttpCallSpec {
                cluster: String::from_str(crate::consts::model_server_name()),
                path: String::from_str("/embeddings"),
                method: Method::Post,
                timeout_secs: LONG_CALL_TIMEOUT_S,
                body: CallBody::Embeddings(
                    CreateEmbeddingRequest {
                        input: user_message,
                        model: String::from_str(crate::consts::default_embedding_model()),
                    },
                ),
            };
            RequestBodyAction::DispatchEmbeddings { call }
        }
    }
}

/// What the jailbreak-guard reply came to.
pub enum GuardAction {
    /// The guard rejected the turn: short-circuit with an error response.
    SendError { status: u16, message: String },
    /// The turn passed: dispatch the embedding call and suspend.
    DispatchEmbeddings { call: HttpCallSpec },
}

/// What the embedding reply came to.
pub enum EmbeddingsAction {
    /// Short-circuit with an error response.
    SendError { status: u16, message: String },
    /// Dispatch the zero-shot classification call and suspend.
    DispatchZeroShot { call: HttpCallSpec },
}

impl StreamContext {
    /// The message a rejected jailbreak verdict is answered with: the
    /// configured one, or the built-in default.
    pub open spec fn spec_jailbreak_error_message(self) -> Seq<char> {
        match self.spec_prompt_guards() {
            Some(g) => match g.spec_jailbreak_message() {
                Some(m) => m@,
                None => "Jailbreak detected. Please refrain from discussing jailbreaking."@,
            },
            None => "Jailbreak detected. Please refrain from discussing jailbreaking."@,
        }
    }

    /// The description-embedding similarity of the user turn against one
    /// target: the fixed-point cosine against its catalog vector, or zero
    /// where the catalog holds none.
    pub open spec fn spec_desc_score(self, emb: Seq<i64>, name: Seq<char>) -> i64 {
        match self.spec_catalog().spec_lookup(name, crate::common_types::EmbeddingType::Description) {
            Some(dv) => crate::score::cosine_micros(emb, dv) as i64,
            None => 0,
        }
    }

    /// Stages the user-turn embedding call for a context that already holds
    /// the user message.
    fn get_embeddings(&mut self, ctx: CallContext) -> (call: HttpCallSpec)
        requires
            old(self).wf(),
            old(self).ctx_wf(ctx),
        ensures
            final(self).wf(),
            final(self).spec_callouts() == old(self).spec_callouts(),
            final(self).spec_metrics() == old(self).spec_metrics(),
            final(self).spec_provider_index() == old(self).spec_provider_index(),
            final(self).spec_ratelimit_selector() == old(self).spec_ratelimit_selector(),
            final(self).spec_streaming_response() == old(self).spec_streaming_response(),
            final(self).spec_response_tokens() == old(self).spec_response_tokens(),
            final(self).spec_chat_completions_request() == old(self).spec_chat_completions_request(),
            final(self).spec_prompt_targets() == old(self).spec_prompt_targets(),
            final(self).spec_providers() == old(self).spec_providers(),
            final(self).spec_catalog() == old(self).spec_catalog(),
            final(self).spec_prompt_guards() == old(self).spec_prompt_guards(),
            final(self).spec_overrides() == old(self).spec_overrides(),
            call.cluster@ == "model_server"@,
            call.path@ == "/embeddings"@,
            call.method == Method::Post,
            call.timeout_secs == LONG_CALL_TIMEOUT_S,
            call.body matches CallBody::Embeddings(e) && ctx.user_message matches Some(u)
                && e.input@ == u@ && e.model@ == "text-embedding"@,
            final(self).spec_pending() matches Some(c2) && {
                &&& c2.response_handler_type == ResponseHandlerType::GetEmbeddings
                &&& c2.user_message == ctx.user_message
                &&& c2.request_body == ctx.request_body
                &&& c2.similarity_scores is None
            },
    {
        let CallContext {
            response_handler_type: _,
            user_message,
            prompt_target_name: _,
            request_body,
            similarity_scores: _,
            up_stream_cluster: _,
            up_stream_cluster_path: _,
        } = ctx;
        let input: String = match &user_message {
            Some(u) => u.clone(),
            None => String::new(),
        };
        let staged = CallContext {
            response_handler_type: ResponseHandlerType::GetEmbeddings,
            user_message,
            prompt_target_name: None,
            request_body,
            similarity_scores: None,
            up_stream_cluster: None,
            up_stream_cluster_path: None,
        };
        self.pending = Some(staged);
        HttpCallSpec {
            cluster: String::from_str(crate::consts::model_server_name()),
            path: String::from_str("/embeddings"),
            method: Method::Post,
            timeout_secs: LONG_CALL_TIMEOUT_S,
            body: CallBody::Embeddings(
                CreateEmbeddingRequest {
                    input,
                    model: String::from_str(crate::consts::default_embedding_model()),
                },
            ),
        }
    }

    /// The jailbreak-guard reply: a positive verdict short-circuits the
    /// request with the configured message; otherwise the intent pipeline
    /// continues with the embedding call.
    pub fn curve_guard_handler(&mut self, token_id: u32, response: PromptGuardResponse) -> (r:
        GuardAction)
        requires
            old(self).wf(),
            old(self).spec_pending() is None,
            old(self).spec_callouts().spec_get(token_id) matches Some(c)
                && c.response_handler_type == ResponseHandlerType::CurveGuard,
            old(self).spec_metrics().active_http_calls.value > i64::MIN,
        ensures
            final(self).wf(),
            !final(self).spec_callouts().spec_contains(token_id),
            final(self).spec_metrics().active_http_calls.value == old(
                self,
            ).spec_metrics().active_http_calls.value - 1,
            final(self).spec_metrics().ratelimited_rq == old(self).spec_metrics().ratelimited_rq,
            final(self).spec_provider_index() == old(self).spec_provider_index(),
            final(self).spec_ratelimit_selector() == old(self).spec_ratelimit_selector(),
            final(self).spec_response_tokens() == old(self).spec_response_tokens(),
            match r {
                GuardAction::SendError { status, message } => {
                    &&& status == 400
                    &&& response.jailbreak_verdict == Some(true)
                    &&& message@ == old(self).spec_jailbreak_error_message()
                    &&& final(self).spec_pending() is None
                },
                GuardAction::DispatchEmbeddings { call } => {
                    &&& response.jailbreak_verdict != Some(true)
                    &&& call.cluster@ == "model_server"@
                    &&& call.path@ == "/embeddings"@
                    &&& call.method == Method::Post
                    &&& call.timeout_secs == LONG_CALL_TIMEOUT_S
                    &&& (old(self).spec_callouts().spec_get(token_id) matches Some(c) && {
                        &&& (call.body matches CallBody::Embeddings(e) && c.user_message
                            matches Some(u) && e.input@ == u@ && e.model@ == "text-embedding"@)
                        &&& final(self).spec_pending() matches Some(c2)
                            && c2.response_handler_type == ResponseHandlerType::GetEmbeddings
                            && c2.user_message == c.user_message && c2.request_body
                            == c.request_body && c2.similarity_scores is None
                    })
                },
            },
    {
        let ctx = match self.take_callout(token_id) {
            Some(c) => c,
            None => {
                return GuardAction::SendError {
                    status: 400,
                    message: String::new(),
                };  // unreachable under the stated requires
            },
        };
        let rejected = match response.jailbreak_verdict {
            Some(v) => v,
            None => false,
        };
        if rejected {
            let message: String = match &self.prompt_guards {
                Some(g) => match g.jailbreak_on_exception_message() {
                    Some(m) => m.to_owned(),
                    None => String::from_str(
                        "Jailbreak detected. Please refrain from discussing jailbreaking.",
                    ),
                },
                None => String::from_str(
                    "Jailbreak detected. Please refrain from discussing jailbreaking.",
                ),
            };
            GuardAction::SendError { status: 400, message }
        } else {
            let call = self.get_embeddings(ctx);
            GuardAction::DispatchEmbeddings { call }
        }
    }
}

impl StreamContext {
    /// The embedding reply: scores the user turn against every configured
    /// target's description embedding and dispatches the zero-shot
    /// classification call, its labels the target names.
    ///
    /// The raw vector is forced into the admitted fixed-point range first;
    /// a reply that would not deserialize asks for a 500.
    pub fn embeddings_handler(&mut self, token_id: u32, embedding: Result<Vec<i64>, String>) -> (r:
        EmbeddingsAction)
        requires
            old(self).wf(),
            old(self).spec_pending() is None,
            old(self).spec_callouts().spec_get(token_id) matches Some(c)
                && c.response_handler_type == ResponseHandlerType::GetEmbeddings,
            old(self).spec_metrics().active_http_calls.value > i64::MIN,
        ensures
            final(self).wf(),
            !final(self).spec_callouts().spec_contains(token_id),
            final(self).spec_metrics().active_http_calls.value == old(
                self,
            ).spec_metrics().active_http_calls.value - 1,
            final(self).spec_metrics().ratelimited_rq == old(self).spec_metrics().ratelimited_rq,
            final(self).spec_provider_index() == old(self).spec_provider_index(),
            final(self).spec_ratelimit_selector() == old(self).spec_ratelimit_selector(),
            final(self).spec_response_tokens() == old(self).spec_response_tokens(),
            final(self).spec_prompt_targets() == old(self).spec_prompt_targets(),
            final(self).spec_catalog() == old(self).spec_catalog(),
            match r {
                EmbeddingsAction::SendError { status, message } => {
                    &&& status == 500
                    &&& embedding is Err
                    &&& final(self).spec_pending() is None
                },
                EmbeddingsAction::DispatchZeroShot { call } => {
                    &&& embedding matches Ok(v) && (old(self).spec_callouts().spec_get(token_id)
                        matches Some(c) && {
                        &&& call.cluster@ == "model_server"@
                        &&& call.path@ == "/zeroshot"@
                        &&& call.method == Method::Post
                        &&& call.timeout_secs == SHORT_CALL_TIMEOUT_S
                        &&& (call.body matches CallBody::ZeroShot(z) && (c.user_message
                            matches Some(u) && {
                            &&& z.input@ == u@
                            &&& z.model@ == "zero-shot-intent"@
                            &&& z.labels@.len() == old(self).spec_prompt_targets().len()
                            &&& forall|i: int|
                                0 <= i < z.labels@.len() ==> (#[trigger] z.labels@[i])@ == old(
                                    self,
                                ).spec_prompt_targets()[i].name@
                        }))
                        &&& (final(self).spec_pending() matches Some(c2) && {
                            &&& c2.response_handler_type == ResponseHandlerType::ZeroShotIntent
                            &&& c2.user_message == c.user_message
                            &&& c2.request_body == c.request_body
                            &&& (c2.similarity_scores matches Some(s) && {
                                &&& s@.len() == old(self).spec_prompt_targets().len()
                                &&& forall|i: int|
                                    0 <= i < s@.len() ==> (#[trigger] s@[i]).0@ == old(
                                        self,
                                    ).spec_prompt_targets()[i].name@ && s@[i].1 == old(
                                        self,
                                    ).spec_desc_score(
                                        crate::score::clamp_vector_spec(v@),
                                        old(self).spec_prompt_targets()[i].name@,
                                    )
                            })
                        })
                    })
                },
            },
    {
        let ctx = match self.take_callout(token_id) {
            Some(c) => c,
            None => {
                return EmbeddingsAction::SendError { status: 500, message: String::new() };
            },
        };
        let vector = match embedding {
            Ok(v) => v,
            Err(e) => {
                let mut message = String::from_str("Error deserializing embedding response: ");
                message.append(e.as_str());
                return EmbeddingsAction::SendError { status: 500, message };
            },
        };
        let clamped = crate::score::clamp_vector(&vector);

        let n = self.prompt_targets.len();
        let mut scores: Vec<(String, i64)> = Vec::new();
        let mut labels: Vec<String> = Vec::new();
        let mut i: usize = 0;
        while i < n
            invariant
                0 <= i <= n,
                n == self.prompt_targets@.len(),
                self.wf(),
                crate::score::vector_in_range(clamped@),
                clamped@ == crate::score::clamp_vector_spec(vector@),
                scores@.len() == i,
                labels@.len() == i,
                forall|j: int|
                    0 <= j < i ==> (#[trigger] scores@[j]).0@ == self.prompt_targets@[j].name@
                        && scores@[j].1 == self.spec_desc_score(
                        clamped@,
                        self.prompt_targets@[j].name@,
                    ),
                forall|j: int|
                    0 <= j < i ==> (#[trigger] labels@[j])@ == self.prompt_targets@[j].name@,
                forall|j: int|
                    0 <= j < i ==> -SCORE_SCALE <= (#[trigger] scores@[j]).1 <= SCORE_SCALE,
            decreases n - i,
        {
            let name = self.prompt_targets[i].name.clone();
            let score: i64 = match self.embeddings_store.get(
                &self.prompt_targets[i].name,
                crate::common_types::EmbeddingType::Description,
            ) {
                Some(dv) => {
                    proof {
                        crate::catalog::lemma_lookup_in_range(
                            self.embeddings_store@,
                            self.prompt_targets@[i as int].name@,
                            crate::common_types::EmbeddingType::Description,
                            dv@,
                        );
                    }
                    crate::score::cosine_similarity_micros(&clamped, dv)
                },
                None => 0,
            };
            labels.push(name.clone());
            scores.push((name, score));
            i = i + 1;
        }

        let input: String = match &ctx.user_message {
            Some(u) => u.clone(),
            None => String::new(),
        };
        let CallContext {
            response_handler_type: _,
            user_message,
            prompt_target_name: _,
            request_body,
            similarity_scores: _,
            up_stream_cluster: _,
            up_stream_cluster_path: _,
        } = ctx;
        let staged = CallContext {
            response_handler_type: ResponseHandlerType::ZeroShotIntent,
            user_message,
            prompt_target_name: None,
            request_body,
            similarity_scores: Some(scores),
            up_stream_cluster: None,
            up_stream_cluster_path: None,
        };
        self.pending = Some(staged);
        let call = HttpCallSpec {
            cluster: String::from_str(crate::consts::model_server_name()),
            path: String::from_str("/zeroshot"),
            method: Method::Post,
            timeout_secs: SHORT_CALL_TIMEOUT_S,
            body: CallBody::ZeroShot(
                ZeroShotClassificationRequest {
                    input,
                    labels,
                    model: String::from_str(crate::consts::default_intent_model()),
                },
            ),
        };
        EmbeddingsAction::DispatchZeroShot { call }
    }
}

/// What the zero-shot classification reply came to.
pub enum ZeroShotAction {
    /// Short-circuit with an error response.
    SendError { status: u16, message: String },
    /// No intent matched: forward the normalized body upstream unchanged.
    ResumeWithBody { body: ChatCompletionsRequest },
    /// An intent matched: dispatch the function-resolver call and suspend.
    DispatchResolver { call: HttpCallSpec },
    /// The reply names a class this request never scored: fatal.
    Fatal { message: String },
}

/// A score forced into one unit of magnitude.
pub open spec fn clamp_score(x: i64) -> i64 {
    if x > SCORE_SCALE {
        SCORE_SCALE
    } else if x < -1_000_000 {
        -1_000_000i64
    } else {
        x
    }
}

fn clamp_score_exec(x: i64) -> (r: i64)
    ensures
        r == clamp_score(x),
        -SCORE_SCALE <= r <= SCORE_SCALE,
{
    if x > SCORE_SCALE {
        SCORE_SCALE
    } else if x < -SCORE_SCALE {
        -SCORE_SCALE
    } else {
        x
    }
}

/// The assistant-continuity override: the second-to-last message was
/// authored by a model whose name starts with `Curve`, so an in-progress
/// parameter-collection dialogue bypasses the intent threshold.
pub open spec fn spec_curve_assistant(msgs: Seq<Message>) -> bool {
    &&& msgs.len() >= 2
    &&& match msgs[msgs.len() - 2].model {
        Some(m) => m@.len() >= 5 && m@[0] == 'C' && m@[1] == 'u' && m@[2] == 'r' && m@[3] == 'v'
            && m@[4] == 'e',
        None => false,
    }
}

fn curve_assistant(msgs: &Vec<Message>) -> (r: bool)
    ensures
        r == spec_curve_assistant(msgs@),
{
    if msgs.len() < 2 {
        return false;
    }
    match &msgs[msgs.len() - 2].model {
        Some(m) => {
            let s = m.as_str();
            if s.unicode_len() < 5 {
                return false;
            }
            s.get_char(0) == 'C' && s.get_char(1) == 'u' && s.get_char(2) == 'r' && s.get_char(3)
                == 'v' && s.get_char(4) == 'e'
        },
        None => false,
    }
}

/// A score found in a bounded list is itself bounded.
proof fn lemma_score_of_bounded(s: Seq<(String, i64)>, name: Seq<char>)
    requires
        scores_bounded(s),
        score_of(s, name) is Some,
    ensures
        -SCORE_SCALE <= score_of(s, name).unwrap() <= SCORE_SCALE,
    decreases s.len(),
{
    if s.len() > 0 && s[0].0@ != name {
        assert forall|i: int| 0 <= i < s.drop_first().len() implies -SCORE_SCALE <= (
        #[trigger] s.drop_first()[i]).1 <= SCORE_SCALE by {
            assert(s.drop_first()[i] == s[i + 1]);
        }
        lemma_score_of_bounded(s.drop_first(), name);
    }
}

/// The score recorded under a name in a scores list.
pub fn find_score(scores: &Vec<(String, i64)>, name: &String) -> (r: Option<i64>)
    ensures
        r == score_of(scores@, name@),
{
    let mut i: usize = 0;
    proof {
        assert(scores@.skip(0) =~= scores@);
    }
    while i < scores.len()
        invariant
            0 <= i <= scores@.len(),
            score_of(scores@.skip(i as int), name@) == score_of(scores@, name@),
        decreases scores@.len() - i,
    {
        proof {
            assert(scores@.skip(i as int).drop_first() =~= scores@.skip(i as int + 1));
        }
        if scores[i].0 == *name {
            return Some(scores[i].1);
        }
        i = i + 1;
    }
    None
}

/// The advertised tool parameter derived from one configured parameter.
pub open spec fn param_matches(
    fp: crate::open_ai::FunctionParameter,
    p: crate::configuration::Parameter,
) -> bool {
    &&& fp.parameter_type == match p.parameter_type {
        Some(tp) => crate::open_ai::ParameterType::spec_from_name(tp@),
        None => crate::open_ai::ParameterType::Str,
    }
    &&& fp.description@ == p.description@
    &&& fp.required == p.required
    &&& match (fp.enum_values, p.enum_values) {
        (Some(a), Some(b)) => a@.len() == b@.len() && forall|k: int|
            0 <= k < a@.len() ==> (#[trigger] a@[k])@ == b@[k]@,
        (None, None) => true,
        _ => false,
    }
    &&& crate::open_ai::opt_string_view(fp.default) == crate::open_ai::opt_string_view(p.default)
}

/// The advertised tool derived from one prompt target: its name, its
/// description, and one typed parameter per configured parameter.
pub open spec fn tool_matches_target(
    t: crate::open_ai::ChatCompletionTool,
    pt: PromptTarget,
) -> bool {
    &&& t.tool_type == crate::open_ai::ToolType::Function
    &&& t.function.name@ == pt.name@
    &&& t.function.description@ == pt.description@
    &&& match pt.parameters {
        None => t.function.parameters.properties@.len() == 0,
        Some(ps) => t.function.parameters.properties@.len() == ps@.len() && forall|k: int|
            0 <= k < ps@.len() ==> (#[trigger] t.function.parameters.properties@[k]).0@
                == ps@[k].name@ && param_matches(t.function.parameters.properties@[k].1, ps@[k]),
    }
}

fn clone_string_vec(v: &Vec<String>) -> (r: Vec<String>)
    ensures
        r@.len() == v@.len(),
        forall|k: int| 0 <= k < v@.len() ==> (#[trigger] r@[k])@ == v@[k]@,
{
    let mut out: Vec<String> = Vec::new();
    let mut i: usize = 0;
    while i < v.len()
        invariant
            0 <= i <= v@.len(),
            out@.len() == i,
            forall|k: int| 0 <= k < i ==> (#[trigger] out@[k])@ == v@[k]@,
        decreases v@.len() - i,
    {
        out.push(v[i].clone());
        i = i + 1;
    }
    out
}

/// The tool list advertised to the function resolver: every configured
/// prompt target, with its typed parameters.
pub fn build_chat_completion_tools(targets: &Vec<PromptTarget>) -> (r: Vec<
    crate::open_ai::ChatCompletionTool,
>)
    ensures
        r@.len() == targets@.len(),
        forall|i: int| 0 <= i < r@.len() ==> tool_matches_target(#[trigger] r@[i], targets@[i]),
{
    let mut tools: Vec<crate::open_ai::ChatCompletionTool> = Vec::new();
    let mut i: usize = 0;
    while i < targets.len()
        invariant
            0 <= i <= targets@.len(),
            tools@.len() == i,
            forall|j: int|
                0 <= j < i ==> tool_matches_target(#[trigger] tools@[j], targets@[j]),
        decreases targets@.len() - i,
    {
        let pt = &targets[i];
        let mut properties: Vec<(String, crate::open_ai::FunctionParameter)> = Vec::new();
        match &pt.parameters {
            Some(ps) => {
                let mut k: usize = 0;
                while k < ps.len()
                    invariant
                        0 <= k <= ps@.len(),
                        properties@.len() == k,
                        forall|m: int|
                            0 <= m < k ==> (#[trigger] properties@[m]).0@ == ps@[m].name@
                                && param_matches(properties@[m].1, ps@[m]),
                    decreases ps@.len() - k,
                {
                    let p = &ps[k];
                    let parameter_type = match &p.parameter_type {
                        Some(tp) => crate::open_ai::ParameterType::from_name(tp),
                        None => crate::open_ai::ParameterType::Str,
                    };
                    let enum_values = match &p.enum_values {
                        Some(ev) => Some(clone_string_vec(ev)),
                        None => None,
                    };
                    let default = match &p.default {
                        Some(d) => Some(d.clone()),
                        None => None,
                    };
                    let fp = crate::open_ai::FunctionParameter {
                        parameter_type,
                        description: p.description.clone(),
                        required: p.required,
                        enum_values,
                        default,
                    };
                    properties.push((p.name.clone(), fp));
                    k = k + 1;
                }
            },
            None => {},
        }
        let tool = crate::open_ai::ChatCompletionTool {
            tool_type: crate::open_ai::ToolType::Function,
            function: crate::open_ai::FunctionDefinition {
                name: pt.name.clone(),
                description: pt.description.clone(),
                parameters: crate::open_ai::FunctionParameters { properties },
            },
        };
        tools.push(tool);
        i = i + 1;
    }
    tools
}

impl StreamContext {
    /// The intent threshold this request compares against: the configured
    /// override, or the built-in default, forced into one unit.
    pub open spec fn spec_threshold(self) -> i64 {
        match self.spec_overrides() {
            Some(o) => match o.prompt_target_intent_matching_threshold {
                Some(t) => clamp_score(t),
                None => DEFAULT_PROMPT_TARGET_THRESHOLD,
            },
            None => DEFAULT_PROMPT_TARGET_THRESHOLD,
        }
    }

    fn threshold(&self) -> (r: i64)
        ensures
            r == self.spec_threshold(),
            -SCORE_SCALE <= r <= SCORE_SCALE,
    {
        match &self.overrides {
            Some(o) => match o.prompt_target_intent_matching_threshold {
                Some(t) => clamp_score_exec(t),
                None => DEFAULT_PROMPT_TARGET_THRESHOLD,
            },
            None => DEFAULT_PROMPT_TARGET_THRESHOLD,
        }
    }

    /// The zero-shot reply: fuses the classifier score with the predicted
    /// class's description similarity and compares against the threshold.
    ///
    /// Below the threshold, with no assistant-continuity override, the
    /// normalized body passes through upstream unchanged. Otherwise every
    /// prompt target is advertised as a tool to the function resolver. The
    /// fused decision is exactly
    /// `7 * zs + 3 * desc >= 10 * threshold`, in millionths: the integer
    /// form of `0.7 * zs + 0.3 * desc >= threshold`.
    pub fn zero_shot_intent_detection_resp_handler(
        &mut self,
        token_id: u32,
        response: Result<ZeroShotClassificationResponse, String>,
    ) -> (r: ZeroShotAction)
        requires
            old(self).wf(),
            old(self).spec_pending() is None,
            old(self).spec_callouts().spec_get(token_id) matches Some(c)
                && c.response_handler_type == ResponseHandlerType::ZeroShotIntent,
            old(self).spec_metrics().active_http_calls.value > i64::MIN,
        ensures
            final(self).wf(),
            !final(self).spec_callouts().spec_contains(token_id),
            final(self).spec_metrics().active_http_calls.value == old(
                self,
            ).spec_metrics().active_http_calls.value - 1,
            final(self).spec_metrics().ratelimited_rq == old(self).spec_metrics().ratelimited_rq,
            final(self).spec_provider_index() == old(self).spec_provider_index(),
            final(self).spec_ratelimit_selector() == old(self).spec_ratelimit_selector(),
            final(self).spec_response_tokens() == old(self).spec_response_tokens(),
            final(self).spec_prompt_targets() == old(self).spec_prompt_targets(),
            ({
                let c = old(self).spec_callouts().spec_get(token_id).unwrap();
                let scores = c.similarity_scores.unwrap()@;
                match r {
                    ZeroShotAction::SendError { status, message } => {
                        &&& status == 500
                        &&& response is Err
                        &&& final(self).spec_pending() is None
                    },
                    ZeroShotAction::Fatal { message } => {
                        &&& response matches Ok(resp) && (score_of(scores, resp.predicted_class@)
                            is None || crate::configuration::target_of(
                            old(self).spec_prompt_targets(),
                            resp.predicted_class@,
                        ) is None)
                        &&& final(self).spec_pending() is None
                    },
                    ZeroShotAction::ResumeWithBody { body } => {
                        &&& response matches Ok(resp) && (score_of(scores, resp.predicted_class@)
                            matches Some(desc) && {
                            &&& !crate::score::spec_intent_match(
                                clamp_score(resp.predicted_class_score) as int,
                                desc as int,
                                old(self).spec_threshold() as int,
                            )
                            &&& !spec_curve_assistant(c.request_body.messages@)
                        })
                        &&& body == c.request_body
                        &&& body_normalized(body, old(self).spec_selected_model())
                        &&& final(self).spec_pending() is None
                    },
                    ZeroShotAction::DispatchResolver { call } => {
                        &&& response matches Ok(resp) && (score_of(scores, resp.predicted_class@)
                            matches Some(desc) && {
                            &&& crate::score::spec_intent_match(
                                clamp_score(resp.predicted_class_score) as int,
                                desc as int,
                                old(self).spec_threshold() as int,
                            ) || spec_curve_assistant(c.request_body.messages@)
                            &&& call.cluster@ == "curve_fc"@
                            &&& call.path@ == "/v1/chat/completions"@
                            &&& call.method == Method::Post
                            &&& call.timeout_secs == SHORT_CALL_TIMEOUT_S
                            &&& (call.body matches CallBody::Resolver(req) && {
                                &&& req.model@ == "gpt-3.5-turbo"@
                                &&& crate::open_ai::messages_view(req.messages@)
                                    == crate::open_ai::messages_view(c.request_body.messages@)
                                &&& (req.tools matches Some(tools) && tools@.len() == old(
                                    self,
                                ).spec_prompt_targets().len() && forall|i: int|
                                    0 <= i < tools@.len() ==> tool_matches_target(
                                        #[trigger] tools@[i],
                                        old(self).spec_prompt_targets()[i],
                                    ))
                                &&& req.stream == false
                                &&& req.stream_options is None
                            })
                            &&& (final(self).spec_pending() matches Some(c2) && {
                                &&& c2.response_handler_type
                                    == ResponseHandlerType::FunctionResolver
                                &&& c2.user_message == c.user_message
                                &&& c2.request_body == c.request_body
                                &&& c2.similarity_scores == c.similarity_scores
                                &&& (c2.prompt_target_name matches Some(n) && n@
                                    == resp.predicted_class@)
                            })
                        })
                    },
                }
            }),
    {
        let ctx = match self.take_callout(token_id) {
            Some(c) => c,
            None => {
                return ZeroShotAction::SendError { status: 500, message: String::new() };
            },
        };
        let resp = match response {
            Ok(resp) => resp,
            Err(e) => {
                let mut message = String::from_str(
                    "Error deserializing zeroshot intent detection response: ",
                );
                message.append(e.as_str());
                return ZeroShotAction::SendError { status: 500, message };
            },
        };

        let desc: i64 = {
            let found = match &ctx.similarity_scores {
                Some(scores) => find_score(scores, &resp.predicted_class),
                None => {
                    proof {
                        assert(false);
                    }
                    None
                },
            };
            match found {
                Some(d) => d,
                None => {
                    return ZeroShotAction::Fatal {
                        message: String::from_str(
                            "predicted class was never scored against the catalog",
                        ),
                    };
                },
            }
        };
        proof {
            let scores = old(self).spec_callouts().spec_get(token_id).unwrap().similarity_scores;
            assert(scores matches Some(s) && scores_bounded(s@));
            lemma_score_of_bounded(scores.unwrap()@, resp.predicted_class@);
        }
        let zs = clamp_score_exec(resp.predicted_class_score);
        let threshold = self.threshold();
        let matched = crate::score::intent_match(zs, desc, threshold);
        let continuity = curve_assistant(&ctx.request_body.messages);

        if !matched && !continuity {
            return ZeroShotAction::ResumeWithBody { body: ctx.request_body };
        }

        let target_name: String = match crate::configuration::find_target(
            &self.prompt_targets,
            &resp.predicted_class,
        ) {
            Some(t) => {
                proof {
                    crate::configuration::lemma_target_of_name(
                        self.prompt_targets@,
                        resp.predicted_class@,
                    );
                }
                t.name.clone()
            },
            None => {
                return ZeroShotAction::Fatal {
                    message: String::from_str("no prompt target under the predicted class"),
                };
            },
        };

        let tools = build_chat_completion_tools(&self.prompt_targets);
        let resolver_request = ChatCompletionsRequest {
            model: String::from_str(crate::consts::gpt_35_turbo()),
            messages: crate::open_ai::clone_messages(&ctx.request_body.messages),
            tools: Some(tools),
            stream: false,
            stream_options: None,
        };

        let CallContext {
            response_handler_type: _,
            user_message,
            prompt_target_name: _,
            request_body,
            similarity_scores,
            up_stream_cluster: _,
            up_stream_cluster_path: _,
        } = ctx;
        let staged = CallContext {
            response_handler_type: ResponseHandlerType::FunctionResolver,
            user_message,
            prompt_target_name: Some(target_name),
            request_body,
            similarity_scores,
            up_stream_cluster: None,
            up_stream_cluster_path: None,
        };
        self.pending = Some(staged);
        let call = HttpCallSpec {
            cluster: String::from_str(crate::consts::fc_cluster()),
            path: String::from_str("/v1/chat/completions"),
            method: Method::Post,
            timeout_secs: SHORT_CALL_TIMEOUT_S,
            body: CallBody::Resolver(resolver_request),
        };
        ZeroShotAction::DispatchResolver { call }
    }
}

/// The characters of one tool-argument value in a query string: the
/// decimal form of an integer, the text itself otherwise.
pub open spec fn arg_value_chars(v: crate::common_types::IntOrString) -> Seq<char> {
    match v {
        crate::common_types::IntOrString::Integer(i) => crate::decimal::spec_decimal_i64(i as int),
        crate::common_types::IntOrString::Text(s) => s@,
    }
}

/// One `key=value` pair of a query string.
pub open spec fn arg_pair_chars(p: (String, crate::common_types::IntOrString)) -> Seq<char> {
    p.0@ + seq!['='] + arg_value_chars(p.1)
}

/// The pairs after the first, each preceded by `&`.
pub open spec fn query_rest(args: Seq<(String, crate::common_types::IntOrString)>) -> Seq<char>
    decreases args.len(),
{
    if args.len() == 0 {
        Seq::<char>::empty()
    } else {
        seq!['&'] + arg_pair_chars(args[0]) + query_rest(args.drop_first())
    }
}

/// The query string `k=v&…` of an ordered argument list.
pub open spec fn query_string_of(args: Seq<(String, crate::common_types::IntOrString)>) -> Seq<
    char,
> {
    if args.len() == 0 {
        Seq::<char>::empty()
    } else {
        arg_pair_chars(args[0]) + query_rest(args.drop_first())
    }
}

fn append_arg_pair(s: &mut String, p: &(String, crate::common_types::IntOrString))
    ensures
        final(s)@ == old(s)@ + arg_pair_chars(*p),
{
    s.append(p.0.as_str());
    proof {
        reveal_strlit("=");
        assert("="@ =~= seq!['=']);
    }
    s.append("=");
    match &p.1 {
        crate::common_types::IntOrString::Integer(i) => {
            let d = crate::decimal::i32_to_string(*i);
            s.append(d.as_str());
        },
        crate::common_types::IntOrString::Text(t) => {
            s.append(t.as_str());
        },
    }
    proof {
        assert(final(s)@ =~= old(s)@ + arg_pair_chars(*p));
    }
}

/// The query string of an ordered argument list, `k=v` pairs joined by `&`.
pub fn build_query_string(args: &Vec<(String, crate::common_types::IntOrString)>) -> (r: String)
    ensures
        r@ == query_string_of(args@),
{
    let mut s = String::new();
    if args.len() == 0 {
        return s;
    }
    append_arg_pair(&mut s, &args[0]);
    let mut i: usize = 1;
    proof {
        assert(args@.drop_first() =~= args@.skip(1));
        assert(s@ + query_rest(args@.skip(1)) =~= arg_pair_chars(args@[0]) + query_rest(
            args@.drop_first(),
        ));
    }
    while i < args.len()
        invariant
            1 <= i <= args@.len(),
            s@ + query_rest(args@.skip(i as int)) == query_string_of(args@),
        decreases args@.len() - i,
    {
        proof {
            assert(args@.skip(i as int).drop_first() =~= args@.skip(i as int + 1));
            assert(args@.skip(i as int)[0] == args@[i as int]);
            reveal_strlit("&");
            assert("&"@ =~= seq!['&']);
        }
        let ghost s0 = s@;
        s.append("&");
        append_arg_pair(&mut s, &args[i]);
        proof {
            assert(s@ + query_rest(args@.skip(i as int + 1)) =~= s0 + query_rest(
                args@.skip(i as int),
            ));
        }
        i = i + 1;
    }
    proof {
        assert(query_rest(args@.skip(args@.len() as int)) =~= Seq::<char>::empty());
        assert(s@ + Seq::<char>::empty() =~= s@);
    }
    s
}

/// What the function-resolver reply came to.
pub enum ResolverAction {
    /// Short-circuit with an error response.
    SendError { status: u16, message: String },
    /// The resolver asked the user for more: send its raw reply back with
    /// a 200 to continue the parameter-collection dialogue.
    ReplyInline,
    /// The resolver chose a tool: invoke its endpoint and suspend.
    DispatchTool { call: HttpCallSpec },
    /// The chosen tool names no configured target with an endpoint: fatal.
    Fatal { message: String },
}

impl StreamContext {
    /// The function-resolver reply: no tool call continues the dialogue
    /// inline; otherwise the first tool call (only one is supported) is
    /// turned into an endpoint invocation. A `POST` endpoint takes the
    /// arguments as its body with the path untouched; any other method
    /// takes them as a `k=v&…` query string and no body.
    pub fn function_resolver_handler(
        &mut self,
        token_id: u32,
        response: Result<ChatCompletionsResponse, String>,
    ) -> (r: ResolverAction)
        requires
            old(self).wf(),
            old(self).spec_pending() is None,
            old(self).spec_callouts().spec_get(token_id) matches Some(c)
                && c.response_handler_type == ResponseHandlerType::FunctionResolver,
            old(self).spec_metrics().active_http_calls.value > i64::MIN,
            response matches Ok(resp) ==> resp.choices@.len() > 0,
        ensures
            final(self).wf(),
            !final(self).spec_callouts().spec_contains(token_id),
            final(self).spec_metrics().active_http_calls.value == old(
                self,
            ).spec_metrics().active_http_calls.value - 1,
            final(self).spec_metrics().ratelimited_rq == old(self).spec_metrics().ratelimited_rq,
            final(self).spec_provider_index() == old(self).spec_provider_index(),
            final(self).spec_ratelimit_selector() == old(self).spec_ratelimit_selector(),
            final(self).spec_response_tokens() == old(self).spec_response_tokens(),
            final(self).spec_prompt_targets() == old(self).spec_prompt_targets(),
            ({
                let c = old(self).spec_callouts().spec_get(token_id).unwrap();
                match r {
                    ResolverAction::SendError { status, message } => {
                        &&& final(self).spec_pending() is None
                        &&& match response {
                            Ok(resp) => status == 400 && (resp.choices@[0].message.tool_calls
                                matches Some(tc) && tc@.len() == 0),
                            Err(_) => status == 500,
                        }
                    },
                    ResolverAction::ReplyInline => {
                        &&& response matches Ok(resp) && resp.choices@[0].message.tool_calls
                            is None
                        &&& final(self).spec_pending() is None
                    },
                    ResolverAction::Fatal { message } => {
                        &&& response matches Ok(resp) && (resp.choices@[0].message.tool_calls
                            matches Some(tc) && tc@.len() > 0 && {
                            let tool_name = tc@[0].function.name@;
                            match crate::configuration::target_of(
                                old(self).spec_prompt_targets(),
                                tool_name,
                            ) {
                                Some(t) => t.endpoint is None,
                                None => true,
                            }
                        })
                        &&& final(self).spec_pending() is None
                    },
                    ResolverAction::DispatchTool { call } => {
                        &&& response matches Ok(resp) && (resp.choices@[0].message.tool_calls
                            matches Some(tc) && tc@.len() > 0 && {
                            let tool_name = tc@[0].function.name@;
                            let args = tc@[0].function.arguments@;
                            &&& (crate::configuration::target_of(
                                old(self).spec_prompt_targets(),
                                tool_name,
                            ) matches Some(target) && (target.endpoint matches Some(ep) && {
                                let base = match ep.path {
                                    Some(p) => p@,
                                    None => "/"@,
                                };
                                let method = match ep.method {
                                    Some(m) => m,
                                    None => Method::Post,
                                };
                                &&& call.cluster@ == ep.name@
                                &&& call.method == method
                                &&& call.timeout_secs == SHORT_CALL_TIMEOUT_S
                                &&& if method == Method::Post {
                                    call.path@ == base && (call.body matches CallBody::Tool(
                                        Some(sent),
                                    ) && sent@.len() == args.len() && (forall|j: int|
                                        0 <= j < args.len() ==> (#[trigger] sent@[j]).0@
                                            == args[j].0@ && crate::open_ai::int_or_string_view(
                                            sent@[j].1,
                                        ) == crate::open_ai::int_or_string_view(args[j].1)))
                                } else {
                                    call.path@ == base + seq!['?'] + query_string_of(args)
                                        && call.body matches CallBody::Tool(None)
                                }
                                &&& (final(self).spec_pending() matches Some(c2) && {
                                    &&& c2.response_handler_type
                                        == ResponseHandlerType::FunctionCall
                                    &&& c2.user_message == c.user_message
                                    &&& c2.request_body == c.request_body
                                    &&& c2.prompt_target_name == c.prompt_target_name
                                    &&& (c2.up_stream_cluster matches Some(cl) && cl@ == ep.name@)
                                    &&& (c2.up_stream_cluster_path matches Some(p2) && p2@
                                        == call.path@)
                                })
                            }))
                        })
                    },
                }
            }),
    {
        let ctx = match self.take_callout(token_id) {
            Some(c) => c,
            None => {
                return ResolverAction::SendError { status: 500, message: String::new() };
            },
        };
        let resp = match response {
            Ok(resp) => resp,
            Err(e) => {
                let mut message = String::from_str(
                    "Error deserializing function resolver response into ChatCompletion: ",
                );
                message.append(e.as_str());
                return ResolverAction::SendError { status: 500, message };
            },
        };

        let tool_calls = match &resp.choices[0].message.tool_calls {
            Some(tc) => tc,
            None => {
                return ResolverAction::ReplyInline;
            },
        };
        if tool_calls.len() == 0 {
            return ResolverAction::SendError {
                status: 400,
                message: String::from_str("No tool calls found in function resolver response"),
            };
        }

        let tool_name = &tool_calls[0].function.name;
        let target = match crate::configuration::find_target(&self.prompt_targets, tool_name) {
            Some(t) => t,
            None => {
                return ResolverAction::Fatal {
                    message: String::from_str("no prompt target under the resolved tool name"),
                };
            },
        };
        let endpoint = match &target.endpoint {
            Some(ep) => ep,
            None => {
                return ResolverAction::Fatal {
                    message: String::from_str("the resolved prompt target has no endpoint"),
                };
            },
        };

        let method: Method = match &endpoint.method {
            Some(m) => *m,
            None => Method::Post,
        };
        let mut path: String = match &endpoint.path {
            Some(p) => p.clone(),
            None => {
                proof {
                    reveal_strlit("/");
                }
                String::from_str("/")
            },
        };
        let cluster = endpoint.name.clone();
        let body: Option<Vec<(String, crate::common_types::IntOrString)>> = if method
            == Method::Post {
            Some(crate::open_ai::clone_arguments(&tool_calls[0].function.arguments))
        } else {
            proof {
                reveal_strlit("?");
                assert("?"@ =~= seq!['?']);
            }
            path.append("?");
            let qs = build_query_string(&tool_calls[0].function.arguments);
            path.append(qs.as_str());
            None
        };

        let CallContext {
            response_handler_type: _,
            user_message,
            prompt_target_name,
            request_body,
            similarity_scores,
            up_stream_cluster: _,
            up_stream_cluster_path: _,
        } = ctx;
        let staged = CallContext {
            response_handler_type: ResponseHandlerType::FunctionCall,
            user_message,
            prompt_target_name,
            request_body,
            similarity_scores,
            up_stream_cluster: Some(cluster.clone()),
            up_stream_cluster_path: Some(path.clone()),
        };
        self.pending = Some(staged);
        let call = HttpCallSpec {
            cluster,
            path,
            method,
            timeout_secs: SHORT_CALL_TIMEOUT_S,
            body: CallBody::Tool(body),
        };
        ResolverAction::DispatchTool { call }
    }
}

/// What the tool-endpoint reply came to.
pub enum ToolAction {
    /// The endpoint failed: short-circuit with a diagnostic naming the
    /// cluster and path.
    SendError { status: u16, message: String },
    /// The synthesized upstream body, ready for the rate-limit gate. The
    /// captured selector is surrendered with it.
    RateLimitGate { request: ChatCompletionsRequest, selector: Option<Header> },
}

/// What the rate-limit gate decided.
pub enum GateDecision {
    /// Forward the synthesized body upstream.
    Proceed,
    /// The limiter refused: short-circuit with a 429.
    Reject { status: u16, message: String },
}

impl StreamContext {
    /// The tool-endpoint reply. A non-2xx status short-circuits with a
    /// diagnostic naming the cluster and path. On success the upstream body
    /// is synthesized: the original messages, then the target's system
    /// prompt if it has one, then the tool reply and the original user
    /// message as user turns; model, stream and stream options are kept
    /// from the normalized request, and the advertised tools are dropped.
    pub fn function_call_response_handler(
        &mut self,
        token_id: u32,
        status: Option<u16>,
        body: String,
    ) -> (r: ToolAction)
        requires
            old(self).wf(),
            old(self).spec_pending() is None,
            old(self).spec_callouts().spec_get(token_id) matches Some(c)
                && c.response_handler_type == ResponseHandlerType::FunctionCall,
            old(self).spec_metrics().active_http_calls.value > i64::MIN,
        ensures
            final(self).wf(),
            !final(self).spec_callouts().spec_contains(token_id),
            final(self).spec_pending() is None,
            final(self).spec_metrics().active_http_calls.value == old(
                self,
            ).spec_metrics().active_http_calls.value - 1,
            final(self).spec_metrics().ratelimited_rq == old(self).spec_metrics().ratelimited_rq,
            final(self).spec_provider_index() == old(self).spec_provider_index(),
            final(self).spec_response_tokens() == old(self).spec_response_tokens(),
            final(self).spec_prompt_targets() == old(self).spec_prompt_targets(),
            ({
                let c = old(self).spec_callouts().spec_get(token_id).unwrap();
                match r {
                    ToolAction::SendError { status: st, message } => {
                        &&& st == 400
                        &&& status matches Some(s) && s / 100 != 2
                        &&& (c.up_stream_cluster matches Some(cl) && (c.up_stream_cluster_path
                            matches Some(p) && message@ == "Error in function call response: cluster: "@
                            + cl@ + ", path: "@ + p@ + ", status code: "@
                            + crate::decimal::spec_decimal(status.unwrap() as nat)))
                        &&& final(self).spec_ratelimit_selector() == old(
                            self,
                        ).spec_ratelimit_selector()
                    },
                    ToolAction::RateLimitGate { request, selector } => {
                        &&& match status {
                            Some(s) => s / 100 == 2,
                            None => true,
                        }
                        &&& selector == old(self).spec_ratelimit_selector()
                        &&& final(self).spec_ratelimit_selector() is None
                        &&& body_normalized(request, old(self).spec_selected_model())
                        &&& request.model == c.request_body.model
                        &&& request.tools is None
                        &&& request.stream == c.request_body.stream
                        &&& request.stream_options == c.request_body.stream_options
                        &&& ({
                            let base = c.request_body.messages@;
                            let target = crate::configuration::target_of(
                                old(self).spec_prompt_targets(),
                                c.prompt_target_name.unwrap()@,
                            ).unwrap();
                            let with_sys = match target.system_prompt {
                                Some(sp) => base.len() + 3,
                                None => base.len() + 2,
                            };
                            &&& request.messages@.len() == with_sys
                            &&& (forall|i: int|
                                0 <= i < base.len() ==> #[trigger] request.messages@[i]
                                    == base[i])
                            &&& match target.system_prompt {
                                Some(sp) => {
                                    let m = request.messages@[base.len() as int];
                                    m.role@ == "system"@ && crate::open_ai::opt_string_view(
                                        m.content,
                                    ) == Some(sp@) && m.model is None && m.tool_calls is None
                                },
                                None => true,
                            }
                            &&& ({
                                let m = request.messages@[request.messages@.len() - 2];
                                m.role@ == "user"@ && crate::open_ai::opt_string_view(m.content)
                                    == Some(body@) && m.model is None && m.tool_calls is None
                            })
                            &&& ({
                                let m = request.messages@[request.messages@.len() - 1];
                                m.role@ == "user"@ && crate::open_ai::opt_string_view(m.content)
                                    == crate::open_ai::opt_string_view(c.user_message)
                                    && m.model is None && m.tool_calls is None
                            })
                        })
                    },
                }
            }),
    {
        let ctx = match self.take_callout(token_id) {
            Some(c) => c,
            None => {
                return ToolAction::RateLimitGate {
                    request: ChatCompletionsRequest {
                        model: String::new(),
                        messages: Vec::new(),
                        tools: None,
                        stream: false,
                        stream_options: None,
                    },
                    selector: None,
                };  // unreachable under the stated requires
            },
        };
        match status {
            Some(s) => {
                if !(s / 100 == 2) {
                    let mut message = String::from_str(
                        "Error in function call response: cluster: ",
                    );
                    match &ctx.up_stream_cluster {
                        Some(cl) => message.append(cl.as_str()),
                        None => {
                            proof {
                                assert(false);
                            }
                        },
                    }
                    message.append(", path: ");
                    match &ctx.up_stream_cluster_path {
                        Some(p) => message.append(p.as_str()),
                        None => {
                            proof {
                                assert(false);
                            }
                        },
                    }
                    message.append(", status code: ");
                    let code = crate::decimal::u64_to_string(s as u64);
                    message.append(code.as_str());
                    return ToolAction::SendError { status: 400, message };
                }
            },
            None => {},
        }

        let target = match crate::configuration::find_target(
            &self.prompt_targets,
            match &ctx.prompt_target_name {
                Some(n) => n,
                None => {
                    proof {
                        assert(false);
                    }
                    &ctx.request_body.model
                },
            },
        ) {
            Some(t) => t,
            None => {
                proof {
                    assert(false);
                }
                return ToolAction::RateLimitGate {
                    request: ChatCompletionsRequest {
                        model: String::new(),
                        messages: Vec::new(),
                        tools: None,
                        stream: false,
                        stream_options: None,
                    },
                    selector: None,
                };
            },
        };
        let system_prompt: Option<String> = match &target.system_prompt {
            Some(sp) => Some(sp.clone()),
            None => None,
        };

        let CallContext {
            response_handler_type: _,
            user_message,
            prompt_target_name: _,
            request_body,
            similarity_scores: _,
            up_stream_cluster: _,
            up_stream_cluster_path: _,
        } = ctx;
        let ChatCompletionsRequest { model, mut messages, tools: _, stream, stream_options } =
            request_body;

        match system_prompt {
            Some(sp) => {
                messages.push(
                    Message {
                        role: String::from_str(crate::consts::system_role()),
                        content: Some(sp),
                        model: None,
                        tool_calls: None,
                    },
                );
            },
            None => {},
        }
        messages.push(
            Message {
                role: String::from_str(crate::consts::user_role()),
                content: Some(body),
                model: None,
                tool_calls: None,
            },
        );
        let original_user: String = match &user_message {
            Some(u) => u.clone(),
            None => {
                proof {
                    assert(false);
                }
                String::new()
            },
        };
        messages.push(
            Message {
                role: String::from_str(crate::consts::user_role()),
                content: Some(original_user),
                model: None,
                tool_calls: None,
            },
        );

        let request = ChatCompletionsRequest {
            model,
            messages,
            tools: None,
            stream,
            stream_options,
        };
        let selector = self.ratelimit_selector.take();
        ToolAction::RateLimitGate { request, selector }
    }

    /// The rate-limit gate: the shell tokenizes the serialized body and
    /// asks the limiter only when a selector was captured; the limiter's
    /// verdict is handed back here. `None` stands for a skipped gate (no
    /// selector, or tokenization failed, which is tolerated); a refusal is
    /// answered with a 429 and counted.
    pub fn gate_decision(&mut self, check: Option<Result<(), String>>) -> (r: GateDecision)
        requires
            old(self).wf(),
            old(self).spec_metrics().ratelimited_rq.value < u64::MAX,
        ensures
            final(self).wf(),
            final(self).spec_callouts() == old(self).spec_callouts(),
            final(self).spec_pending() == old(self).spec_pending(),
            final(self).spec_response_tokens() == old(self).spec_response_tokens(),
            final(self).spec_metrics().active_http_calls == old(
                self,
            ).spec_metrics().active_http_calls,
            match r {
                GateDecision::Proceed => {
                    &&& !(check matches Some(Err(_)))
                    &&& final(self).spec_metrics().ratelimited_rq == old(
                        self,
                    ).spec_metrics().ratelimited_rq
                },
                GateDecision::Reject { status, message } => {
                    &&& status == 429
                    &&& check matches Some(Err(e)) && message@ == "Exceeded Ratelimit: "@ + e@
                    &&& final(self).spec_metrics().ratelimited_rq.value == old(
                        self,
                    ).spec_metrics().ratelimited_rq.value + 1
                },
            },
    {
        match check {
            Some(Err(e)) => {
                let mut message = String::from_str("Exceeded Ratelimit: ");
                message.append(e.as_str());
                self.metrics.ratelimited_rq.increment(1);
                GateDecision::Reject { status: 429, message }
            },
            _ => GateDecision::Proceed,
        }
    }
}

/// How to treat one response-body event.
#[derive(Clone, Copy, Debug, PartialEq, Eq, Structural)]
pub enum ResponseBodyDisposition {
    /// Not an intercepted chat-completion request: stream bytes through.
    PassThrough,
    /// Keep buffering until end of stream.
    Pause,
    /// Parse the buffered bytes as one streaming chunk.
    ProcessStreamingChunk,
    /// Parse the buffered bytes as the whole response.
    ProcessFullBody,
}

/// What one streaming chunk came to.
pub enum StreamChunkAction {
    /// The chunk's content tokens are added to the running count.
    Accounted,
    /// Nothing to account: no content, or the tolerated sentinel.
    Ignored,
    /// Short-circuit with an error response.
    SendError { status: u16, message: String },
    /// A chunk with no choice at all: fatal for the request.
    Fatal { message: String },
}

/// What the whole (non-streaming) response body came to.
pub enum FullBodyAction {
    /// `usage.completion_tokens` is added to the running count.
    Accounted,
    /// Short-circuit with an error response.
    SendError { status: u16, message: String },
}

/// Addition on the token counter, saturating at the counter's width.
pub open spec fn sat_add64(a: int, b: int) -> int {
    if a + b > u64::MAX {
        u64::MAX as int
    } else {
        a + b
    }
}

/// The total of a sequence of per-chunk token counts.
pub open spec fn sum_counts(s: Seq<u64>) -> int
    decreases s.len(),
{
    if s.len() == 0 {
        0
    } else {
        s[0] + sum_counts(s.drop_first())
    }
}

/// Feeding the counter one count after the other.
pub open spec fn run_accounting(start: int, s: Seq<u64>) -> int
    decreases s.len(),
{
    if s.len() == 0 {
        start
    } else {
        run_accounting(sat_add64(start, s[0] as int), s.drop_first())
    }
}

proof fn lemma_sum_counts_nonneg(s: Seq<u64>)
    ensures
        sum_counts(s) >= 0,
    decreases s.len(),
{
    if s.len() > 0 {
        lemma_sum_counts_nonneg(s.drop_first());
    }
}

/// Streaming token accounting: over a whole stream of chunks, the counter
/// grows by exactly the sum of the per-chunk token counts, as long as that
/// total fits the counter.
pub proof fn lemma_streaming_token_accounting(start: u64, counts: Seq<u64>)
    requires
        start + sum_counts(counts) <= u64::MAX,
    ensures
        run_accounting(start as int, counts) == start + sum_counts(counts),
    decreases counts.len(),
{
    if counts.len() > 0 {
        lemma_sum_counts_nonneg(counts.drop_first());
        let next = sat_add64(start as int, counts[0] as int);
        assert(next == start + counts[0]);
        lemma_streaming_token_accounting((start + counts[0]) as u64, counts.drop_first());
    }
}

impl StreamContext {
    /// How the shell should treat a response-body event, from the response
    /// flags this request has established.
    pub fn response_body_disposition(&self, end_of_stream: bool) -> (r: ResponseBodyDisposition)
        ensures
            r == if !self.spec_chat_completions_request() {
                ResponseBodyDisposition::PassThrough
            } else if !end_of_stream && !self.spec_streaming_response() {
                ResponseBodyDisposition::Pause
            } else if self.spec_streaming_response() {
                ResponseBodyDisposition::ProcessStreamingChunk
            } else {
                ResponseBodyDisposition::ProcessFullBody
            },
    {
        if !self.chat_completions_request {
            ResponseBodyDisposition::PassThrough
        } else if !end_of_stream && !self.streaming_response {
            ResponseBodyDisposition::Pause
        } else if self.streaming_response {
            ResponseBodyDisposition::ProcessStreamingChunk
        } else {
            ResponseBodyDisposition::ProcessFullBody
        }
    }

    /// Accounts one streaming chunk.
    ///
    /// `marker_found` reports whether the frame carried a `data: ` marker;
    /// `chunk` is its parsed payload where parsing succeeded; `sentinel`
    /// whether the unparsed payload was the tolerated sentinel; and
    /// `content_tokens` the token count of the chunk's content, as the
    /// tokenizer reports it for the chunk's model.
    pub fn on_streaming_chunk(
        &mut self,
        marker_found: bool,
        chunk: Option<ChatCompletionChunkResponse>,
        sentinel: bool,
        content_tokens: u64,
    ) -> (r: StreamChunkAction)
        requires
            old(self).wf(),
        ensures
            final(self).wf(),
            final(self).spec_callouts() == old(self).spec_callouts(),
            final(self).spec_pending() == old(self).spec_pending(),
            final(self).spec_metrics() == old(self).spec_metrics(),
            final(self).spec_provider_index() == old(self).spec_provider_index(),
            final(self).spec_streaming_response() == old(self).spec_streaming_response(),
            final(self).spec_chat_completions_request() == old(
                self,
            ).spec_chat_completions_request(),
            match r {
                StreamChunkAction::Accounted => {
                    &&& marker_found
                    &&& chunk matches Some(c) && c.choices.len() > 0 && c.choices[0].delta.content
                        is Some
                    &&& final(self).spec_response_tokens() == sat_add64(
                        old(self).spec_response_tokens() as int,
                        content_tokens as int,
                    )
                },
                StreamChunkAction::Ignored => {
                    &&& marker_found
                    &&& (match chunk {
                        Some(c) => c.choices.len() > 0 && c.choices[0].delta.content is None,
                        None => sentinel,
                    })
                    &&& final(self).spec_response_tokens() == old(self).spec_response_tokens()
                },
                StreamChunkAction::SendError { status, message } => {
                    &&& status == 500
                    &&& (!marker_found || (chunk is None && !sentinel))
                    &&& final(self).spec_response_tokens() == old(self).spec_response_tokens()
                },
                StreamChunkAction::Fatal { message } => {
                    &&& marker_found
                    &&& chunk matches Some(c) && c.choices.len() == 0
                    &&& final(self).spec_response_tokens() == old(self).spec_response_tokens()
                },
            },
    {
        if !marker_found {
            return StreamChunkAction::SendError {
                status: 500,
                message: String::from_str("parsing error in streaming data"),
            };
        }
        match chunk {
            None => {
                if sentinel {
                    StreamChunkAction::Ignored
                } else {
                    StreamChunkAction::SendError {
                        status: 500,
                        message: String::from_str("error in streaming response"),
                    }
                }
            },
            Some(c) => {
                if c.choices.len() == 0 {
                    return StreamChunkAction::Fatal {
                        message: String::from_str(
                            "streaming chunk carries no choice",
                        ),
                    };
                }
                match &c.choices[0].delta.content {
                    Some(_) => {
                        if self.response_tokens <= u64::MAX - content_tokens {
                            self.response_tokens = self.response_tokens + content_tokens;
                        } else {
                            self.response_tokens = u64::MAX;
                        }
                        StreamChunkAction::Accounted
                    },
                    None => StreamChunkAction::Ignored,
                }
            },
        }
    }

    /// Accounts a whole non-streaming response: its reported completion
    /// tokens join the running count; an unparsable body asks for a 500.
    pub fn on_response_body_full(&mut self, response: Option<ChatCompletionsResponse>) -> (r:
        FullBodyAction)
        requires
            old(self).wf(),
        ensures
            final(self).wf(),
            final(self).spec_callouts() == old(self).spec_callouts(),
            final(self).spec_pending() == old(self).spec_pending(),
            final(self).spec_metrics() == old(self).spec_metrics(),
            match r {
                FullBodyAction::Accounted => {
                    &&& response matches Some(resp) && final(self).spec_response_tokens()
                        == sat_add64(
                        old(self).spec_response_tokens() as int,
                        resp.usage.completion_tokens as int,
                    )
                },
                FullBodyAction::SendError { status, message } => {
                    &&& status == 500
                    &&& response is None
                    &&& final(self).spec_response_tokens() == old(self).spec_response_tokens()
                },
            },
    {
        match response {
            Some(resp) => {
                let tokens: u64 = resp.usage.completion_tokens as u64;
                if self.response_tokens <= u64::MAX - tokens {
                    self.response_tokens = self.response_tokens + tokens;
                } else {
                    self.response_tokens = u64::MAX;
                }
                FullBodyAction::Accounted
            },
            None => FullBodyAction::SendError {
                status: 500,
                message: String::from_str("error in non-streaming response"),
            },
        }
    }
}

} // verus!

//! The root filter: configuration ingestion, the startup embedding
//! pipeline, and admission of per-request contexts.
//!
//! On the first tick the root issues one embedding call per prompt target.
//! Each reply files one `(name, Description)` vector in the staging catalog;
//! a second vector for a filled pair is fatal, as is a reply that would not
//! deserialize. When the staging catalog holds one entry per target it is
//! published, and only then are request contexts created.

use crate::catalog::EmbeddingCatalog;
use crate::common_types::CreateEmbeddingRequest;
use crate::common_types::EmbeddingType;
use crate::configuration::Configuration;
use crate::configuration::Overrides;
use crate::configuration::PromptGuards;
use crate::configuration::PromptTarget;
use crate::configuration::Ratelimit;
use crate::configuration::target_of;
use crate::configuration::targets_like;
use crate::configuration::targets_unique;
use crate::consts::LONG_CALL_TIMEOUT_S;
use crate::routing::LlmProviders;
use crate::routing::exactly_one_default;
use crate::routing::provider_like;
use crate::stats::WasmMetrics;
use crate::stream_context::CallBody;
use crate::stream_context::HttpCallSpec;
use crate::stream_context::StreamContext;
use crate::token_map::TokenMap;
use vstd::prelude::*;
use vstd::seq_lib::*;
use vstd::set_lib::lemma_subset_equality;
use vstd::pervasive::VecAdditionalExecFns;
use vstd::string::StringExecFns;

verus! {

/// What the root carries across one startup embedding call: which target
/// and which kind of text was embedded.
pub struct FilterCallContext {
    pub prompt_target_name: String,
    pub embedding_type: EmbeddingType,
}

/// The root filter state.
pub struct FilterContext {
    metrics: WasmMetrics,
    callouts: TokenMap<FilterCallContext>,
    overrides: Option<Overrides>,
    system_prompt: Option<String>,
    prompt_targets: Vec<PromptTarget>,
    prompt_guards: Option<PromptGuards>,
    llm_providers: Option<LlmProviders>,
    ratelimits: Option<Vec<Ratelimit>>,
    temp_embeddings_store: EmbeddingCatalog,
    published: bool,
}

impl FilterContext {
    pub closed spec fn spec_metrics(self) -> WasmMetrics {
        self.metrics
    }

    pub closed spec fn spec_callouts(self) -> TokenMap<FilterCallContext> {
        self.callouts
    }

    pub closed spec fn spec_overrides(self) -> Option<Overrides> {
        self.overrides
    }

    pub closed spec fn spec_system_prompt(self) -> Option<String> {
        self.system_prompt
    }

    pub closed spec fn spec_prompt_targets(self) -> Seq<PromptTarget> {
        self.prompt_targets@
    }

    pub closed spec fn spec_prompt_guards(self) -> Option<PromptGuards> {
        self.prompt_guards
    }

    pub closed spec fn spec_providers(self) -> Option<LlmProviders> {
        self.llm_providers
    }

    pub closed spec fn spec_staging(self) -> EmbeddingCatalog {
        self.temp_embeddings_store
    }

    pub closed spec fn spec_published(self) -> bool {
        self.published
    }

    /// The root's state invariant.
    pub open spec fn wf(self) -> bool {
        &&& self.spec_callouts().wf()
        &&& targets_unique(self.spec_prompt_targets())
        &&& match self.spec_providers() {
            Some(p) => p.wf(),
            None => true,
        }
        &&& self.spec_staging().wf()
        &&& forall|i: int|
            0 <= i < self.spec_staging()@.len() ==> (#[trigger] self.spec_staging()@[i]).embedding_type
                == EmbeddingType::Description && target_of(
                self.spec_prompt_targets(),
                self.spec_staging()@[i].name@,
            ) is Some
        &&& forall|j: int|
            0 <= j < self.spec_callouts()@.len() ==> (#[trigger] self.spec_callouts()@[j]).1.embedding_type
                == EmbeddingType::Description && target_of(
                self.spec_prompt_targets(),
                self.spec_callouts()@[j].1.prompt_target_name@,
            ) is Some
        &&& self.spec_published() ==> self.spec_staging()@.len()
            == self.spec_prompt_targets().len()
    }

    /// A fresh root with nothing configured and no catalog.
    pub fn new() -> (r: FilterContext)
        ensures
            r.wf(),
            r.spec_prompt_targets().len() == 0,
            r.spec_providers() is None,
            r.spec_staging()@.len() == 0,
            !r.spec_published(),
            r.spec_callouts()@.len() == 0,
    {
        FilterContext {
            metrics: WasmMetrics::new(),
            callouts: TokenMap::new(),
            overrides: None,
            system_prompt: None,
            prompt_targets: Vec::new(),
            prompt_guards: None,
            llm_providers: None,
            ratelimits: None,
            temp_embeddings_store: EmbeddingCatalog::new(),
            published: false,
        }
    }

    /// Ingests the configuration: validates the provider set (exactly one
    /// default, else initialization fails), stores the prompt targets keyed
    /// by name (a repeated name replaces the earlier entry), and keeps the
    /// guards, overrides, system prompt and rate limits. With no targets at
    /// all the empty catalog is published at once.
    pub fn on_configure(&mut self, config: Configuration) -> (r: Result<(), String>)
        requires
            old(self).wf(),
            old(self).spec_staging()@.len() == 0,
            old(self).spec_callouts()@.len() == 0,
        ensures
            final(self).wf(),
            r is Ok <==> exactly_one_default(config.llm_providers@),
            match r {
                Ok(()) => {
                    &&& final(self).spec_providers() matches Some(p) && p@
                        == config.llm_providers@
                    &&& final(self).spec_overrides() == config.overrides
                    &&& final(self).spec_system_prompt() == config.system_prompt
                    &&& final(self).spec_prompt_guards() == config.prompt_guards
                    &&& targets_unique(final(self).spec_prompt_targets())
                    &&& forall|j: int|
                        0 <= j < config.prompt_targets@.len() ==> target_of(
                            final(self).spec_prompt_targets(),
                            (#[trigger] config.prompt_targets@[j]).name@,
                        ) is Some
                    &&& forall|n: Seq<char>|
                        #[trigger] target_of(final(self).spec_prompt_targets(), n) is Some
                            ==> target_of(config.prompt_targets@, n) is Some
                    &&& final(self).spec_published() == (final(self).spec_prompt_targets().len()
                        == 0)
                },
                Err(_) => *final(self) == *old(self),
            },
    {
        let Configuration {
            version: _,
            listener: _,
            endpoints: _,
            llm_providers,
            overrides,
            system_prompt,
            prompt_guards,
            prompt_targets,
            error_target: _,
            ratelimits,
            tracing: _,
        } = config;
        let providers = match LlmProviders::try_new(llm_providers) {
            Ok(p) => p,
            Err(e) => {
                return Err(e);
            },
        };

        let mut kept: Vec<PromptTarget> = Vec::new();
        let mut i: usize = 0;
        let n = prompt_targets.len();
        let mut source = prompt_targets;
        while i < n
            invariant
                0 <= i <= n,
                n == source@.len(),
                targets_unique(kept@),
                forall|j: int|
                    0 <= j < i ==> target_of(kept@, (#[trigger] source@[j]).name@) is Some,
                forall|n2: Seq<char>|
                    #[trigger] target_of(kept@, n2) is Some ==> exists|j: int|
                        0 <= j < i && (#[trigger] source@[j]).name@ == n2,
            decreases n - i,
        {
            let t = crate::configuration::clone_target(&source[i]);
            upsert_target(&mut kept, t);
            proof {
                assert(source@[i as int].name@ == source@[i as int].name@);
            }
            i = i + 1;
        }
        proof {
            assert forall|n2: Seq<char>| #[trigger] target_of(kept@, n2) is Some implies target_of(
                source@,
                n2,
            ) is Some by {
                let j = choose|j: int| 0 <= j < n && (#[trigger] source@[j]).name@ == n2;
                crate::configuration::lemma_target_found(source@, j, n2);
            }
        }

        self.published = kept.len() == 0;
        self.prompt_targets = kept;
        self.overrides = overrides;
        self.system_prompt = system_prompt;
        self.prompt_guards = prompt_guards;
        self.ratelimits = ratelimits;
        self.llm_providers = Some(providers);
        Ok(())
    }

    /// One embedding call per prompt target, each carrying the target's
    /// description, for the shell to dispatch on the first tick.
    pub fn process_prompt_targets(&self) -> (r: Vec<HttpCallSpec>)
        ensures
            r@.len() == self.spec_prompt_targets().len(),
            forall|i: int|
                0 <= i < r@.len() ==> {
                    let call = #[trigger] r@[i];
                    &&& call.cluster@ == "model_server"@
                    &&& call.path@ == "/embeddings"@
                    &&& call.method == crate::configuration::Method::Post
                    &&& call.timeout_secs == LONG_CALL_TIMEOUT_S
                    &&& call.body matches CallBody::Embeddings(e) && e.input@
                        == self.spec_prompt_targets()[i].description@ && e.model@
                        == "text-embedding"@
                },
    {
        let mut out: Vec<HttpCallSpec> = Vec::new();
        let mut i: usize = 0;
        while i < self.prompt_targets.len()
            invariant
                0 <= i <= self.prompt_targets@.len(),
                out@.len() == i,
                forall|j: int|
                    0 <= j < i ==> {
                        let call = #[trigger] out@[j];
                        &&& call.cluster@ == "model_server"@
                        &&& call.path@ == "/embeddings"@
                        &&& call.method == crate::configuration::Method::Post
                        &&& call.timeout_secs == LONG_CALL_TIMEOUT_S
                        &&& call.body matches CallBody::Embeddings(e) && e.input@
                            == self.prompt_targets@[j].description@ && e.model@
                            == "text-embedding"@
                    },
            decreases self.prompt_targets@.len() - i,
        {
            let call = HttpCallSpec {
                cluster: String::from_str(crate::consts::model_server_name()),
                path: String::from_str("/embeddings"),
                method: crate::configuration::Method::Post,
                timeout_secs: LONG_CALL_TIMEOUT_S,
                body: CallBody::Embeddings(
                    CreateEmbeddingRequest {
                        input: self.prompt_targets[i].description.clone(),
                        model: String::from_str(crate::consts::default_embedding_model()),
                    },
                ),
            };
            out.push(call);
            i = i + 1;
        }
        out
    }

    /// Files the startup call for the target at the given position under
    /// the host's token. A token this root already holds is refused: a
    /// program bug, fatal.
    pub fn register_startup_callout(&mut self, token_id: u32, target_index: usize) -> (fresh:
        bool)
        requires
            old(self).wf(),
            target_index < old(self).spec_prompt_targets().len(),
        ensures
            final(self).wf(),
            fresh == !old(self).spec_callouts().spec_contains(token_id),
            fresh ==> final(self).spec_callouts()@.len() == old(self).spec_callouts()@.len() + 1
                && (final(self).spec_callouts().spec_get(token_id) matches Some(c)
                && c.prompt_target_name@ == old(self).spec_prompt_targets()[
                    target_index as int
                ].name@ && c.embedding_type == EmbeddingType::Description),
            !fresh ==> final(self).spec_callouts()@ === old(self).spec_callouts()@,
            final(self).spec_staging() == old(self).spec_staging(),
            final(self).spec_published() == old(self).spec_published(),
            final(self).spec_prompt_targets() == old(self).spec_prompt_targets(),
            final(self).spec_providers() == old(self).spec_providers(),
    {
        let name = self.prompt_targets[target_index].name.clone();
        let ctx = FilterCallContext {
            prompt_target_name: name,
            embedding_type: EmbeddingType::Description,
        };
        proof {
            crate::configuration::lemma_target_found(
                self.prompt_targets@,
                target_index as int,
                self.prompt_targets@[target_index as int].name@,
            );
        }
        let fresh = self.callouts.insert(token_id, ctx);
        let held = self.callouts.len();
        let gauge: i64 = if held <= 0x7fff_ffff {
            held as i64
        } else {
            0x7fff_ffff
        };
        self.metrics.active_http_calls.record(gauge);
        proof {
            let s1 = self.callouts@;
            let s0 = old(self).callouts@;
            if fresh {
                assert forall|j: int| 0 <= j < s1.len() implies (#[trigger] s1[j]).1.embedding_type
                    == EmbeddingType::Description && target_of(
                    self.prompt_targets@,
                    s1[j].1.prompt_target_name@,
                ) is Some by {
                    if j < s1.len() - 1 {
                        assert(s1[j] == s0[j]);
                    }
                }
            }
        }
        fresh
    }

    /// Whether a startup call is pending under the token.
    pub fn startup_callout_pending(&self, token_id: u32) -> (r: bool)
        requires
            self.wf(),
        ensures
            r == self.spec_callouts().spec_contains(token_id),
    {
        self.callouts.contains(token_id)
    }

    /// One startup embedding reply: files the vector in the staging catalog
    /// and publishes the catalog once every target is covered.
    ///
    /// Every failure here is fatal for the filter, as the catalog would
    /// stay incomplete: a reply that would not deserialize, a second vector
    /// for an already-filled pair (a configuration aliasing bug), or a
    /// reply arriving after publication (necessarily a duplicate).
    pub fn embedding_response_handler(
        &mut self,
        token_id: u32,
        embedding: Result<Vec<i64>, String>,
    ) -> (r: Result<(), String>)
        requires
            old(self).wf(),
            old(self).spec_callouts().spec_contains(token_id),
        ensures
            final(self).wf(),
            !final(self).spec_callouts().spec_contains(token_id),
            final(self).spec_prompt_targets() == old(self).spec_prompt_targets(),
            final(self).spec_providers() == old(self).spec_providers(),
            ({
                let c = old(self).spec_callouts().spec_get(token_id).unwrap();
                match r {
                    Ok(()) => {
                        &&& embedding matches Ok(v)
                        &&& !old(self).spec_published()
                        &&& !old(self).spec_staging().spec_contains(
                            c.prompt_target_name@,
                            EmbeddingType::Description,
                        )
                        &&& final(self).spec_staging()@.len() == old(
                            self,
                        ).spec_staging()@.len() + 1
                        &&& final(self).spec_staging().spec_lookup(
                            c.prompt_target_name@,
                            EmbeddingType::Description,
                        ) == Some(crate::score::clamp_vector_spec(v@))
                        &&& final(self).spec_published() == (final(self).spec_staging()@.len()
                            == final(self).spec_prompt_targets().len())
                    },
                    Err(_) => {
                        embedding is Err || old(self).spec_published() || old(
                            self,
                        ).spec_staging().spec_contains(
                            c.prompt_target_name@,
                            EmbeddingType::Description,
                        )
                    },
                }
            }),
    {
        let ctx = match self.callouts.remove(token_id) {
            Some(c) => c,
            None => {
                return Err(String::from_str("invalid token_id"));
            },
        };
        let held = self.callouts.len();
        let gauge: i64 = if held <= 0x7fff_ffff {
            held as i64
        } else {
            0x7fff_ffff
        };
        self.metrics.active_http_calls.record(gauge);
        proof {
            let s1 = self.callouts@;
            let s0 = old(self).callouts@;
            assert forall|j: int| 0 <= j < s1.len() implies (#[trigger] s1[j]).1.embedding_type
                == EmbeddingType::Description && target_of(
                self.prompt_targets@,
                s1[j].1.prompt_target_name@,
            ) is Some by {
                assert(s0.contains(s1[j]));
                let j0 = choose|j0: int| 0 <= j0 < s0.len() && s0[j0] == s1[j];
                assert((s0[j0]).1.embedding_type == EmbeddingType::Description);
            }
        }

        let vector = match embedding {
            Ok(v) => v,
            Err(e) => {
                let mut message = String::from_str("Error deserializing embedding response: ");
                message.append(e.as_str());
                return Err(message);
            },
        };
        if self.published {
            return Err(
                String::from_str("embedding reply arrived after catalog publication"),
            );
        }
        let clamped = crate::score::clamp_vector(&vector);
        let fresh = self.temp_embeddings_store.insert(
            ctx.prompt_target_name,
            EmbeddingType::Description,
            clamped,
        );
        if !fresh {
            return Err(
                String::from_str(
                    "duplicate description embedding for a prompt target: configuration aliasing bug",
                ),
            );
        }
        proof {
            let st = self.temp_embeddings_store@;
            let st0 = old(self).temp_embeddings_store@;
            assert forall|i: int| 0 <= i < st.len() implies (#[trigger] st[i]).embedding_type
                == EmbeddingType::Description && target_of(
                self.prompt_targets@,
                st[i].name@,
            ) is Some by {
                if i < st.len() - 1 {
                    assert(st[i] == st0[i]);
                }
            }
        }
        if self.temp_embeddings_store.len() == self.prompt_targets.len() {
            self.published = true;
        }
        Ok(())
    }

    /// Whether the catalog has been published.
    pub fn is_published(&self) -> (r: bool)
        ensures
            r == self.spec_published(),
    {
        self.published
    }

    /// The embedding store, once published; before publication there is no
    /// catalog to read.
    pub fn embeddings_store(&self) -> (r: Option<&EmbeddingCatalog>)
        ensures
            r is Some <==> self.spec_published(),
            match r {
                Some(c) => *c == self.spec_staging(),
                None => true,
            },
    {
        if self.published {
            Some(&self.temp_embeddings_store)
        } else {
            None
        }
    }

    /// Whether configuration has been ingested.
    pub fn configured(&self) -> (r: bool)
        ensures
            r == (self.spec_providers() is Some),
    {
        self.llm_providers.is_some()
    }

    /// Admits one request context, but only once the catalog is published:
    /// until every prompt target has its description embedding, no request
    /// context is created.
    pub fn create_http_context(&self, context_id: u32) -> (r: Option<StreamContext>)
        requires
            self.wf(),
            self.spec_providers() is Some,
        ensures
            r is Some <==> self.spec_published(),
            match r {
                Some(sc) => {
                    &&& sc.wf()
                    &&& sc.spec_context_id() == context_id
                    &&& targets_like(self.spec_prompt_targets(), sc.spec_prompt_targets())
                    &&& forall|n: Seq<char>, k: EmbeddingType|
                        #[trigger] sc.spec_catalog().spec_lookup(n, k)
                            == self.spec_staging().spec_lookup(n, k)
                    &&& ({
                        let mine = self.spec_providers().unwrap();
                        let theirs = sc.spec_providers();
                        &&& theirs@.len() == mine@.len()
                        &&& forall|i: int|
                            0 <= i < mine@.len() ==> provider_like(
                                #[trigger] mine@[i],
                                theirs@[i],
                            )
                        &&& theirs.spec_default_index() == mine.spec_default_index()
                    })
                    &&& match (self.spec_prompt_guards(), sc.spec_prompt_guards()) {
                        (None, None) => true,
                        (Some(a), Some(b)) => crate::configuration::guards_like(a, b),
                        _ => false,
                    }
                    &&& sc.spec_guard_jailbreak() == (match self.spec_prompt_guards() {
                        Some(g) => g.spec_has_jailbreak_guard(),
                        None => false,
                    })
                    &&& sc.spec_overrides() == self.spec_overrides()
                    &&& sc.spec_callouts()@.len() == 0
                    &&& sc.spec_provider_index() is None
                },
                None => true,
            },
    {
        if !self.published {
            return None;
        }
        let providers = match &self.llm_providers {
            Some(p) => p.duplicate(),
            None => {
                proof {
                    assert(false);
                }
                return None;
            },
        };
        let targets = crate::configuration::clone_targets(&self.prompt_targets);
        let catalog = self.temp_embeddings_store.duplicate();
        let guards = match &self.prompt_guards {
            Some(g) => {
                let copy = crate::configuration::clone_prompt_guards(g);
                proof {
                    crate::configuration::lemma_guards_like_jailbreak(*g, copy);
                }
                Some(copy)
            },
            None => None,
        };
        let overrides = match &self.overrides {
            Some(o) => Some(
                Overrides {
                    prompt_target_intent_matching_threshold:
                        o.prompt_target_intent_matching_threshold,
                },
            ),
            None => None,
        };
        Some(
            StreamContext::new(
                context_id,
                WasmMetrics::new(),
                targets,
                guards,
                overrides,
                providers,
                catalog,
            ),
        )
    }
}

/// Replaces the target of the same name, or appends a new one; uniqueness
/// and the set of held names follow.
fn upsert_target(targets: &mut Vec<PromptTarget>, t: PromptTarget)
    requires
        targets_unique(old(targets)@),
    ensures
        targets_unique(final(targets)@),
        target_of(final(targets)@, t.name@) is Some,
        forall|n2: Seq<char>|
            n2 != t.name@ ==> (#[trigger] target_of(final(targets)@, n2) is Some <==> target_of(
                old(targets)@,
                n2,
            ) is Some),
{
    let mut i: usize = 0;
    let n = targets.len();
    while i < n
        invariant
            0 <= i <= n,
            n == targets@.len(),
            targets@ === old(targets)@,
            targets_unique(old(targets)@),
            forall|j: int| 0 <= j < i ==> (#[trigger] targets@[j]).name@ != t.name@,
        decreases n - i,
    {
        if targets[i].name == t.name {
            let ghost s0 = targets@;
            targets.set(i, t);
            proof {
                let s1 = targets@;
                assert forall|i2: int, j2: int| 0 <= i2 < j2 < s1.len() implies (
                #[trigger] s1[i2]).name@ != (#[trigger] s1[j2]).name@ by {
                    if i2 != i as int && j2 != i as int {
                        assert(s1[i2] == s0[i2]);
                        assert(s1[j2] == s0[j2]);
                        assert(s0[i2].name@ != s0[j2].name@);
                    } else if i2 == i as int {
                        assert(s1[j2] == s0[j2]);
                        assert(s0[i as int].name@ != s0[j2].name@);
                        assert(s1[i2].name@ == s0[i as int].name@);
                    } else {
                        assert(s1[i2] == s0[i2]);
                        assert(s0[i2].name@ != s0[i as int].name@);
                        assert(s1[j2].name@ == s0[i as int].name@);
                    }
                }
                crate::configuration::lemma_target_found(s1, i as int, s1[i as int].name@);
                assert forall|n2: Seq<char>| n2 != s1[i as int].name@ implies (
                #[trigger] target_of(s1, n2) is Some <==> target_of(s0, n2) is Some) by {
                    lemma_target_of_update(s0, s1, i as int, n2);
                }
            }
            return ;
        }
        i = i + 1;
    }
    let ghost s0 = targets@;
    let ghost gname = t.name@;
    targets.push(t);
    proof {
        let s1 = targets@;
        assert forall|i2: int, j2: int| 0 <= i2 < j2 < s1.len() implies (
        #[trigger] s1[i2]).name@ != (#[trigger] s1[j2]).name@ by {
            if j2 == s1.len() - 1 {
                assert(s1[i2] == s0[i2]);
            }
        }
        crate::configuration::lemma_target_found(s1, s1.len() - 1, gname);
        assert forall|n2: Seq<char>| n2 != gname implies (#[trigger] target_of(s1, n2) is Some
            <==> target_of(s0, n2) is Some) by {
            lemma_target_of_push(s0, s1[s1.len() - 1], n2);
        }
    }
}

/// Appending a target affects only its own name's lookup.
proof fn lemma_target_of_push(s: Seq<PromptTarget>, t: PromptTarget, n: Seq<char>)
    ensures
        target_of(s.push(t), n) is Some <==> (target_of(s, n) is Some || t.name@ == n),
    decreases s.len(),
{
    let sp = s.push(t);
    if s.len() == 0 {
        assert(sp[0] == t);
        assert(sp.drop_first() =~= Seq::<PromptTarget>::empty());
    } else {
        assert(sp[0] == s[0]);
        assert(sp.drop_first() =~= s.drop_first().push(t));
        lemma_target_of_push(s.drop_first(), t, n);
    }
}

/// Replacing one entry with a same-named target affects only that name.
proof fn lemma_target_of_update(
    s0: Seq<PromptTarget>,
    s1: Seq<PromptTarget>,
    at: int,
    n: Seq<char>,
)
    requires
        s0.len() == s1.len(),
        0 <= at < s0.len(),
        s0[at].name@ == s1[at].name@,
        forall|j: int| 0 <= j < s0.len() && j != at ==> s0[j] == s1[j],
        n != s0[at].name@,
    ensures
        target_of(s1, n) is Some <==> target_of(s0, n) is Some,
    decreases s0.len(),
{
    if s0.len() > 0 {
        if at == 0 {
            assert(s0.drop_first() =~= s1.drop_first());
        } else {
            assert(s0[0] == s1[0]);
            if !(s0[0].name@ == n) {
                assert forall|j: int|
                    0 <= j < s0.drop_first().len() && j != at - 1 implies s0.drop_first()[j]
                    == s1.drop_first()[j] by {
                    assert(s0.drop_first()[j] == s0[j + 1]);
                    assert(s1.drop_first()[j] == s1[j + 1]);
                }
                assert(s0.drop_first()[at - 1] == s0[at]);
                assert(s1.drop_first()[at - 1] == s1[at]);
                lemma_target_of_update(s0.drop_first(), s1.drop_first(), at - 1, n);
            }
        }
    }
}

/// Catalog completeness: once the root has published, the catalog holds a
/// description embedding for every configured prompt target — the staged
/// entries are distinct, each names a target, and there are as many of them
/// as targets.
pub proof fn lemma_published_catalog_complete(fc: FilterContext)
    requires
        fc.wf(),
        fc.spec_published(),
    ensures
        forall|j: int|
            0 <= j < fc.spec_prompt_targets().len() ==> fc.spec_staging().spec_contains(
                (#[trigger] fc.spec_prompt_targets()[j]).name@,
                EmbeddingType::Description,
            ),
{
    broadcast use seq_to_set_is_finite;

    let st = fc.spec_staging()@;
    let ts = fc.spec_prompt_targets();
    let snames = st.map(|i: int, e: crate::catalog::CatalogEntry| e.name@);
    let tnames = ts.map(|i: int, t: PromptTarget| t.name@);

    assert(snames.no_duplicates()) by {
        assert forall|i: int, j: int| 0 <= i < snames.len() && 0 <= j < snames.len() && i != j
            implies snames[i] != snames[j] by {
            if i < j {
                assert(!(st[i].name@ == st[j].name@ && st[i].embedding_type
                    == st[j].embedding_type));
                assert(st[i].embedding_type == EmbeddingType::Description);
                assert(st[j].embedding_type == EmbeddingType::Description);
            } else {
                assert(!(st[j].name@ == st[i].name@ && st[j].embedding_type
                    == st[i].embedding_type));
                assert(st[j].embedding_type == EmbeddingType::Description);
                assert(st[i].embedding_type == EmbeddingType::Description);
            }
        }
    }
    assert(tnames.no_duplicates()) by {
        assert forall|i: int, j: int| 0 <= i < tnames.len() && 0 <= j < tnames.len() && i != j
            implies tnames[i] != tnames[j] by {
            if i < j {
                assert(ts[i].name@ != ts[j].name@);
            } else {
                assert(ts[j].name@ != ts[i].name@);
            }
        }
    }
    snames.unique_seq_to_set();
    tnames.unique_seq_to_set();
    assert(snames.to_set().subset_of(tnames.to_set())) by {
        assert forall|n: Seq<char>| snames.to_set().contains(n) implies tnames.to_set().contains(
            n,
        ) by {
            let i = choose|i: int| 0 <= i < snames.len() && snames[i] == n;
            assert(target_of(ts, st[i].name@) is Some);
            lemma_target_of_index(ts, n);
            let j = choose|j: int| 0 <= j < ts.len() && ts[j].name@ == n;
            assert(tnames[j] == n);
            assert(tnames.contains(n));
        }
    }
    lemma_subset_equality(snames.to_set(), tnames.to_set());
    assert forall|j: int| 0 <= j < ts.len() implies fc.spec_staging().spec_contains(
        (#[trigger] ts[j]).name@,
        EmbeddingType::Description,
    ) by {
        assert(tnames[j] == ts[j].name@);
        assert(tnames.contains(ts[j].name@));
        assert(tnames.to_set().contains(ts[j].name@));
        assert(snames.to_set().contains(ts[j].name@));
        assert(snames.contains(ts[j].name@));
        let i = choose|i: int| 0 <= i < snames.len() && snames[i] == ts[j].name@;
        assert(st[i].name@ == ts[j].name@);
        assert(st[i].embedding_type == EmbeddingType::Description);
        crate::catalog::lemma_catalog_found(st, i, ts[j].name@, EmbeddingType::Description);
    }
}

/// A found lookup has a witness position.
proof fn lemma_target_of_index(s: Seq<PromptTarget>, n: Seq<char>)
    requires
        target_of(s, n) is Some,
    ensures
        exists|i: int| 0 <= i < s.len() && (#[trigger] s[i]).name@ == n,
    decreases s.len(),
{
    if s.len() > 0 {
        if s[0].name@ == n {
            assert(s[0].name@ == n);
        } else {
            lemma_target_of_index(s.drop_first(), n);
            let i = choose|i: int|
                0 <= i < s.drop_first().len() && (#[trigger] s.drop_first()[i]).name@ == n;
            assert(s[i + 1] == s.drop_first()[i]);
        }
    }
}

} // verus!

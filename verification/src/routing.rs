//! Provider routing: the process-wide immutable provider set, validated to
//! hold exactly one default, and the per-request selection rule.
//!
//! A request that carries the deterministic-routing hint header is pinned to
//! the first configured provider; every other request goes to the default.

use crate::configuration::LlmProvider;
use vstd::prelude::*;
use vstd::string::StringExecFns;

verus! {

/// Whether index `i` names a provider marked default.
pub open spec fn is_default_at(s: Seq<LlmProvider>, i: int) -> bool {
    0 <= i < s.len() && s[i].spec_is_default()
}

/// Exactly one provider of the set is marked default.
pub open spec fn exactly_one_default(s: Seq<LlmProvider>) -> bool {
    exists|i: int|
        is_default_at(s, i) && (forall|j: int| #[trigger] is_default_at(s, j) ==> j == i)
}

/// The same provider, compared by content.
pub open spec fn provider_like(a: LlmProvider, b: LlmProvider) -> bool {
    &&& a.name@ == b.name@
    &&& a.provider@ == b.provider@
    &&& crate::configuration::opt_text_like(a.access_key, b.access_key)
    &&& a.model@ == b.model@
    &&& a.default == b.default
    &&& a.stream == b.stream
    &&& match (a.rate_limits, b.rate_limits) {
        (None, None) => true,
        (Some(x), Some(y)) => x.limit.tokens == y.limit.tokens && x.limit.unit == y.limit.unit
            && match (x.selector.http_header, y.selector.http_header) {
            (None, None) => true,
            (Some(h1), Some(h2)) => h1.name@ == h2.name@ && crate::configuration::opt_text_like(
                h1.value,
                h2.value,
            ),
            _ => false,
        },
        _ => false,
    }
}

/// A copy of one provider with the same content.
pub fn clone_provider(p: &LlmProvider) -> (r: LlmProvider)
    ensures
        provider_like(*p, r),
{
    let access_key = match &p.access_key {
        Some(k) => Some(k.clone()),
        None => None,
    };
    let rate_limits = match &p.rate_limits {
        Some(rl) => Some(
            crate::configuration::LlmRatelimit {
                selector: crate::configuration::LlmRatelimitSelector {
                    http_header: match &rl.selector.http_header {
                        Some(h) => Some(
                            crate::configuration::RatelimitHeader {
                                name: h.name.clone(),
                                value: match &h.value {
                                    Some(v) => Some(v.clone()),
                                    None => None,
                                },
                            },
                        ),
                        None => None,
                    },
                },
                limit: crate::configuration::Limit {
                    tokens: rl.limit.tokens,
                    unit: rl.limit.unit,
                },
            },
        ),
        None => None,
    };
    LlmProvider {
        name: p.name.clone(),
        provider: p.provider.clone(),
        access_key,
        model: p.model.clone(),
        default: p.default,
        stream: p.stream,
        rate_limits,
    }
}

/// The validated provider set.
pub struct LlmProviders {
    providers: Vec<LlmProvider>,
    default_index: usize,
}

impl LlmProviders {
    pub closed spec fn view(self) -> Seq<LlmProvider> {
        self.providers@
    }

    pub closed spec fn spec_default_index(self) -> int {
        self.default_index as int
    }

    /// Well-formed: the recorded default index names the one provider
    /// marked default.
    pub open spec fn wf(self) -> bool {
        &&& is_default_at(self@, self.spec_default_index())
        &&& forall|j: int| #[trigger] is_default_at(self@, j) ==> j == self.spec_default_index()
    }

    /// Validates a configured provider list: exactly one provider must be
    /// marked default, else initialization fails.
    pub fn try_new(providers: Vec<LlmProvider>) -> (r: Result<LlmProviders, String>)
        ensures
            r is Ok <==> exactly_one_default(providers@),
            match r {
                Ok(set) => set.wf() && set@ === providers@,
                Err(_) => true,
            },
    {
        let mut found: Option<usize> = None;
        let mut i: usize = 0;
        while i < providers.len()
            invariant
                0 <= i <= providers@.len(),
                match found {
                    Some(d) => 0 <= d < i && is_default_at(providers@, d as int) && forall|j: int|
                        0 <= j < i && j != d ==> !is_default_at(providers@, j),
                    None => forall|j: int| 0 <= j < i ==> !is_default_at(providers@, j),
                },
            decreases providers@.len() - i,
        {
            if providers[i].is_default() {
                match found {
                    Some(d) => {
                        proof {
                            let di = d as int;
                            assert(is_default_at(providers@, di));
                            assert(is_default_at(providers@, i as int));
                            assert forall|k: int| !(is_default_at(providers@, k) && (forall|j: int|
                                #[trigger] is_default_at(providers@, j) ==> j == k)) by {
                                if is_default_at(providers@, k) {
                                    if k == di {
                                        assert(is_default_at(providers@, i as int) && i as int
                                            != k);
                                    } else {
                                        assert(is_default_at(providers@, di) && di != k);
                                    }
                                }
                            }
                        }
                        return Err(String::from_str("exactly one default provider is expected"));
                    },
                    None => {
                        found = Some(i);
                    },
                }
            }
            i = i + 1;
        }
        match found {
            Some(d) => Ok(LlmProviders { providers, default_index: d }),
            None => {
                proof {
                    assert forall|k: int| !(is_default_at(providers@, k) && (forall|j: int|
                        #[trigger] is_default_at(providers@, j) ==> j == k)) by {
                        if is_default_at(providers@, k) {
                            assert(!is_default_at(providers@, k));
                        }
                    }
                }
                Err(String::from_str("at least one default provider is expected"))
            },
        }
    }

    pub fn len(&self) -> (r: usize)
        ensures
            r == self@.len(),
    {
        self.providers.len()
    }

    /// The index the selection rule picks: the first provider under the
    /// deterministic hint, the configured default otherwise.
    pub open spec fn spec_selected_index(self, hint: bool) -> int {
        if hint {
            0
        } else {
            self.spec_default_index()
        }
    }

    /// Selects the provider for one request from the presence of the
    /// deterministic-routing hint.
    pub fn select(&self, hint: bool) -> (r: &LlmProvider)
        requires
            self.wf(),
        ensures
            *r == self@[self.spec_selected_index(hint)],
            !hint ==> r.spec_is_default(),
    {
        if hint {
            &self.providers[0]
        } else {
            &self.providers[self.default_index]
        }
    }

    /// The position of the configured default provider.
    pub fn default_index(&self) -> (r: usize)
        ensures
            r == self.spec_default_index(),
    {
        self.default_index
    }

    /// A copy of the validated set, with the same content and the same
    /// selection behavior.
    pub fn duplicate(&self) -> (r: LlmProviders)
        requires
            self.wf(),
        ensures
            r.wf(),
            r@.len() == self@.len(),
            forall|i: int| 0 <= i < self@.len() ==> provider_like(#[trigger] self@[i], r@[i]),
            r.spec_default_index() == self.spec_default_index(),
    {
        let mut out: Vec<LlmProvider> = Vec::new();
        let mut i: usize = 0;
        while i < self.providers.len()
            invariant
                0 <= i <= self.providers@.len(),
                out@.len() == i,
                forall|j: int|
                    0 <= j < i ==> provider_like(#[trigger] self.providers@[j], out@[j]),
            decreases self.providers@.len() - i,
        {
            let p = clone_provider(&self.providers[i]);
            out.push(p);
            i = i + 1;
        }
        proof {
            assert forall|j: int| #[trigger] is_default_at(out@, j) implies j
                == self.spec_default_index() by {
                assert(provider_like(self.providers@[j], out@[j]));
                assert(is_default_at(self.providers@, j));
            }
            assert(provider_like(
                self.providers@[self.default_index as int],
                out@[self.default_index as int],
            ));
        }
        LlmProviders { providers: out, default_index: self.default_index }
    }

    /// The provider at a position, for callers that walk the set.
    pub fn get(&self, i: usize) -> (r: &LlmProvider)
        requires
            i < self@.len(),
        ensures
            *r == self@[i as int],
    {
        &self.providers[i]
    }
}

} // verus!

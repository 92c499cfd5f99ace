//! The headers stage: provider selection, routing header, bearer-token
//! synthesis, api-key scrubbing and rate-limit selector capture, as one
//! pure transformation of the request header list.
//!
//! Header names are compared byte-exact; the host hands them over already
//! lower-cased where the protocol does so.

use crate::configuration::Header;
use crate::configuration::LlmProvider;
use crate::consts::deterministic_provider_header;
use crate::consts::ratelimit_selector_header_key;
use crate::consts::routing_header;
use crate::routing::LlmProviders;
use vstd::prelude::*;
use vstd::string::StrSliceExecFns;
use vstd::string::StringExecFns;

verus! {

/// The value of the first header with the given name, if any.
pub open spec fn h_lookup(s: Seq<(String, String)>, name: Seq<char>) -> Option<Seq<char>>
    decreases s.len(),
{
    if s.len() == 0 {
        None
    } else if s[0].0@ == name {
        Some(s[0].1@)
    } else {
        h_lookup(s.drop_first(), name)
    }
}

pub open spec fn h_contains(s: Seq<(String, String)>, name: Seq<char>) -> bool {
    h_lookup(s, name) is Some
}

/// The header list without any header of the given name.
pub open spec fn h_remove(s: Seq<(String, String)>, name: Seq<char>) -> Seq<(String, String)>
    decreases s.len(),
{
    if s.len() == 0 {
        s
    } else if s[0].0@ == name {
        h_remove(s.drop_first(), name)
    } else {
        seq![s[0]] + h_remove(s.drop_first(), name)
    }
}

/// Removal empties the removed name and leaves every other name's lookup
/// unchanged.
proof fn lemma_h_remove_lookup(s: Seq<(String, String)>, name: Seq<char>, n2: Seq<char>)
    ensures
        h_lookup(h_remove(s, name), n2) == if n2 == name {
            None::<Seq<char>>
        } else {
            h_lookup(s, n2)
        },
    decreases s.len(),
{
    if s.len() > 0 {
        lemma_h_remove_lookup(s.drop_first(), name, n2);
        if s[0].0@ != name {
            let rest = h_remove(s.drop_first(), name);
            assert((seq![s[0]] + rest)[0] == s[0]);
            assert((seq![s[0]] + rest).drop_first() =~= rest);
        }
    }
}

/// Appending a header leaves every found name alone and fills the appended
/// name where it was absent.
proof fn lemma_h_lookup_push(s: Seq<(String, String)>, e: (String, String), n2: Seq<char>)
    ensures
        h_lookup(s.push(e), n2) == if h_lookup(s, n2) is Some {
            h_lookup(s, n2)
        } else if e.0@ == n2 {
            Some(e.1@)
        } else {
            None::<Seq<char>>
        },
    decreases s.len(),
{
    let sp = s.push(e);
    if s.len() == 0 {
        assert(sp[0] == e);
        assert(sp.drop_first() =~= Seq::<(String, String)>::empty());
        if e.0@ == n2 {
            assert(h_lookup(sp, n2) == Some(e.1@));
        } else {
            assert(h_lookup(sp, n2) == h_lookup(sp.drop_first(), n2));
            assert(h_lookup(sp, n2) is None);
        }
    } else {
        assert(sp[0] == s[0]);
        assert(sp.drop_first() =~= s.drop_first().push(e));
        lemma_h_lookup_push(s.drop_first(), e, n2);
        if s[0].0@ == n2 {
            assert(h_lookup(sp, n2) == Some(sp[0].1@));
            assert(h_lookup(s, n2) == Some(s[0].1@));
        } else {
            assert(h_lookup(sp, n2) == h_lookup(s.drop_first().push(e), n2));
            assert(h_lookup(s, n2) == h_lookup(s.drop_first(), n2));
        }
    }
}

/// The value of the first header with the given name, if any.
pub fn header_get(headers: &Vec<(String, String)>, name: &str) -> (r: Option<String>)
    ensures
        match r {
            Some(v) => h_lookup(headers@, name@) == Some(v@),
            None => h_lookup(headers@, name@) is None,
        },
{
    let mut i: usize = 0;
    proof {
        assert(headers@.skip(0) =~= headers@);
    }
    while i < headers.len()
        invariant
            0 <= i <= headers@.len(),
            h_lookup(headers@.skip(i as int), name@) == h_lookup(headers@, name@),
        decreases headers@.len() - i,
    {
        proof {
            assert(headers@.skip(i as int).drop_first() =~= headers@.skip(i as int + 1));
        }
        if headers[i].0 == name.to_owned() {
            return Some(headers[i].1.clone());
        }
        i = i + 1;
    }
    None
}

/// Replaces every header of the name with the given value, or drops the
/// name altogether.
pub fn header_set(headers: &mut Vec<(String, String)>, name: &str, value: Option<String>)
    ensures
        match value {
            Some(v) => h_lookup(final(headers)@, name@) == Some(v@),
            None => final(headers)@ === h_remove(old(headers)@, name@) && !h_contains(
                final(headers)@,
                name@,
            ),
        },
        forall|n2: Seq<char>|
            n2 != name@ ==> h_lookup(final(headers)@, n2) == h_lookup(old(headers)@, n2),
{
    let ghost s0 = headers@;
    let mut kept: Vec<(String, String)> = Vec::new();
    let mut i: usize = 0;
    proof {
        assert(s0.skip(0) =~= s0);
        assert(kept@ + h_remove(s0.skip(0), name@) =~= h_remove(s0, name@));
    }
    while i < headers.len()
        invariant
            0 <= i <= headers@.len(),
            headers@ === s0,
            kept@ + h_remove(s0.skip(i as int), name@) === h_remove(s0, name@),
        decreases headers@.len() - i,
    {
        proof {
            assert(s0.skip(i as int).drop_first() =~= s0.skip(i as int + 1));
            assert(s0.skip(i as int)[0] == s0[i as int]);
        }
        if !(headers[i].0 == name.to_owned()) {
            let ghost kept0 = kept@;
            kept.push((headers[i].0.clone(), headers[i].1.clone()));
            proof {
                assert(kept@ =~= kept0 + seq![s0[i as int]]);
                assert(kept0 + (seq![s0[i as int]] + h_remove(s0.skip(i as int + 1), name@))
                    =~= (kept0 + seq![s0[i as int]]) + h_remove(s0.skip(i as int + 1), name@));
            }
        }
        i = i + 1;
    }
    proof {
        assert(h_remove(s0.skip(s0.len() as int), name@) =~= Seq::<(String, String)>::empty());
        assert(kept@ + Seq::<(String, String)>::empty() =~= kept@);
    }
    match value {
        Some(v) => {
            proof {
                lemma_h_remove_lookup(s0, name@, name@);
            }
            let entry = (name.to_owned(), v);
            kept.push(entry);
            proof {
                lemma_h_lookup_push(h_remove(s0, name@), kept@[kept@.len() - 1], name@);
                assert forall|n2: Seq<char>| n2 != name@ implies h_lookup(kept@, n2) == h_lookup(
                    s0,
                    n2,
                ) by {
                    lemma_h_remove_lookup(s0, name@, n2);
                    lemma_h_lookup_push(h_remove(s0, name@), kept@[kept@.len() - 1], n2);
                }
            }
            *headers = kept;
        },
        None => {
            proof {
                lemma_h_remove_lookup(s0, name@, name@);
                assert forall|n2: Seq<char>| n2 != name@ implies h_lookup(kept@, n2) == h_lookup(
                    s0,
                    n2,
                ) by {
                    lemma_h_remove_lookup(s0, name@, n2);
                }
            }
            *headers = kept;
        },
    }
}

/// Rewrites the routing pseudo-path: a request that came in on the plain
/// routing path is pointed at the chat-completions endpoint; any other path
/// is left alone.
pub fn modify_path_header(headers: &mut Vec<(String, String)>)
    ensures
        h_lookup(old(headers)@, ":path"@) == Some("/llmrouting"@) ==> h_lookup(
            final(headers)@,
            ":path"@,
        ) == Some("/v1/chat/completions"@),
        !(h_lookup(old(headers)@, ":path"@) == Some("/llmrouting"@)) ==> final(headers)@ === old(
            headers,
        )@,
{
    match header_get(headers, ":path") {
        Some(path) => {
            proof {
                reveal_strlit("/llmrouting");
            }
            if path == String::from_str("/llmrouting") {
                header_set(headers, ":path", Some(String::from_str("/v1/chat/completions")));
            }
        },
        None => {},
    }
}

/// Every provider api-key header name among the configured providers is
/// absent, but for names that collide with the headers this stage itself
/// writes.
pub open spec fn no_provider_key_remains(
    out: Seq<(String, String)>,
    providers: Seq<LlmProvider>,
) -> bool {
    forall|i: int|
        0 <= i < providers.len() ==> match (#[trigger] providers[i]).access_key {
            Some(k) => k@ == "Authorization"@ || k@ == crate::consts::spec_routing_header()
                || !h_contains(out, k@),
            None => true,
        }
}

/// What the headers stage produced: the rewritten header list, the selected
/// provider's position, and the captured rate-limit selector.
pub struct HeadersOutcome {
    pub headers: Vec<(String, String)>,
    pub provider_index: usize,
    pub ratelimit_selector: Option<Header>,
}

/// Rewrites the inbound request headers for the selected provider.
///
/// The provider is picked from the deterministic-routing hint; the routing
/// header is written; the provider's api key is read and turned into a
/// bearer token while every configured provider's api-key header is
/// scrubbed; the content-length header is dropped; and the rate-limit
/// selector is captured by a two-hop lookup. A missing api key on the
/// selected provider fails the stage, and nothing is reported rewritten.
pub fn process_request_headers(inbound: &Vec<(String, String)>, providers: &LlmProviders) -> (r:
    Result<HeadersOutcome, String>)
    requires
        providers.wf(),
    ensures
        ({
            let hint = h_contains(inbound@, crate::consts::spec_deterministic_provider_header());
            let sel = providers@[providers.spec_selected_index(hint)];
            match r {
                Ok(out) => {
                    &&& out.provider_index == providers.spec_selected_index(hint)
                    &&& match sel.access_key {
                        Some(k) => h_lookup(inbound@, k@) is Some && h_lookup(
                            out.headers@,
                            "Authorization"@,
                        ) == Some("Bearer "@ + h_lookup(inbound@, k@).unwrap()),
                        None => false,
                    }
                    &&& no_provider_key_remains(out.headers@, providers@)
                    &&& !h_contains(out.headers@, "content-length"@)
                    &&& h_lookup(out.headers@, crate::consts::spec_routing_header()) == Some(sel.name@)
                    &&& match h_lookup(out.headers@, crate::consts::spec_ratelimit_selector_header_key()) {
                        Some(key) => match out.ratelimit_selector {
                            Some(selector) => selector.key@ == key && match h_lookup(
                                out.headers@,
                                key,
                            ) {
                                Some(v) => selector.value matches Some(sv) && sv@ == v,
                                None => false,
                            },
                            None => h_lookup(out.headers@, key) is None,
                        },
                        None => out.ratelimit_selector is None,
                    }
                },
                Err(_) => match sel.access_key {
                    Some(k) => h_lookup(inbound@, k@) is None,
                    None => true,
                },
            }
        }),
{
    let hint = header_get(inbound, deterministic_provider_header()).is_some();
    let provider_index: usize = if hint {
        0
    } else {
        providers.default_index()
    };
    let provider: &LlmProvider = providers.get(provider_index);
    let api_key = match &provider.access_key {
        Some(key_header) => match header_get(inbound, key_header.as_str()) {
            Some(v) => v,
            None => {
                return Err(
                    String::from_str("missing api key header of the selected provider"),
                );
            },
        },
        None => {
            return Err(String::from_str("the selected provider names no api-key header"));
        },
    };

    let mut out: Vec<(String, String)> = Vec::new();
    let mut i: usize = 0;
    // start from a copy of the inbound list
    while i < inbound.len()
        invariant
            0 <= i <= inbound@.len(),
            out@ === inbound@.take(i as int),
        decreases inbound@.len() - i,
    {
        out.push((inbound[i].0.clone(), inbound[i].1.clone()));
        proof {
            assert(out@ =~= inbound@.take(i as int + 1));
        }
        i = i + 1;
    }
    proof {
        assert(inbound@.take(inbound@.len() as int) =~= inbound@);
    }

    // scrub every configured provider's api-key header
    let n = providers.len();
    let mut j: usize = 0;
    while j < n
        invariant
            providers.wf(),
            n == providers@.len(),
            0 <= j <= n,
            forall|p: int|
                0 <= p < j ==> match (#[trigger] providers@[p]).access_key {
                    Some(k) => !h_contains(out@, k@),
                    None => true,
                },
        decreases n - j,
    {
        let p = providers.get(j);
        match &p.access_key {
            Some(k) => {
                header_set(&mut out, k.as_str(), None);
            },
            None => {},
        }
        j = j + 1;
    }

    // routing header, bearer token, content-length
    let routing_value = provider.name.clone();
    header_set(&mut out, routing_header(), Some(routing_value));
    let bearer = String::from_str("Bearer ").concat(api_key.as_str());
    header_set(&mut out, "Authorization", Some(bearer));
    header_set(&mut out, "content-length", None);

    proof {
        reveal_strlit("Authorization");
        reveal_strlit("content-length");
        reveal_strlit("x-curve-llm-provider");
        assert("Authorization"@.len() == 13);
        assert("content-length"@.len() == 14);
        assert("x-curve-llm-provider"@.len() == 20);
        assert("Authorization"@ != "content-length"@);
        assert(crate::consts::spec_routing_header() != "Authorization"@);
        assert(crate::consts::spec_routing_header() != "content-length"@);
    }

    // two-hop rate-limit selector capture on the rewritten list
    let ratelimit_selector = match header_get(&out, ratelimit_selector_header_key()) {
        Some(key) => match header_get(&out, key.as_str()) {
            Some(value) => Some(Header { key, value: Some(value) }),
            None => None,
        },
        None => None,
    };

    Ok(HeadersOutcome { headers: out, provider_index, ratelimit_selector })
}

} // verus!

//! Constants of the filter: cluster names, header names, default models and
//! the fixed-point score scale.

use vstd::prelude::*;

verus! {

/// Scores and thresholds count millionths of a unit: `1_000_000` is `1.0`.
pub const SCORE_SCALE: i64 = 1_000_000;

/// The intent-matching threshold used when no override is configured
/// (one half, in millionths).
pub const DEFAULT_PROMPT_TARGET_THRESHOLD: i64 = 500_000;

/// Timeout handed to the host for the function-resolver call, milliseconds.
pub const FC_REQUEST_TIMEOUT_MS: u64 = 120_000;

/// Timeout for the intent, resolver and tool calls, seconds.
pub const SHORT_CALL_TIMEOUT_S: u64 = 5;

/// Timeout for the embedding and guard calls, seconds.
pub const LONG_CALL_TIMEOUT_S: u64 = 60;

/// The cluster that serves embeddings, zero-shot classification and the
/// jailbreak guard.
pub fn model_server_name() -> (r: &'static str)
    ensures
        r@ == "model_server"@,
{
    "model_server"
}

/// The cluster that serves the function resolver.
pub fn fc_cluster() -> (r: &'static str)
    ensures
        r@ == "curve_fc"@,
{
    "curve_fc"
}

/// The embedding model requested for catalog and user-turn embeddings.
pub fn default_embedding_model() -> (r: &'static str)
    ensures
        r@ == "text-embedding"@,
{
    "text-embedding"
}

/// The model requested for zero-shot intent classification.
pub fn default_intent_model() -> (r: &'static str)
    ensures
        r@ == "zero-shot-intent"@,
{
    "zero-shot-intent"
}

/// The model named in function-resolver requests.
pub fn gpt_35_turbo() -> (r: &'static str)
    ensures
        r@ == "gpt-3.5-turbo"@,
{
    "gpt-3.5-turbo"
}

/// The name of the outbound routing header, as characters.
pub open spec fn spec_routing_header() -> Seq<char> {
    "x-curve-llm-provider"@
}

/// The outbound header that tells upstream load balancers which provider
/// was selected.
pub fn routing_header() -> (r: &'static str)
    ensures
        r@ == spec_routing_header(),
{
    "x-curve-llm-provider"
}

/// The name of the deterministic-routing hint header, as characters.
pub open spec fn spec_deterministic_provider_header() -> Seq<char> {
    "x-curve-deterministic-provider"@
}

/// The inbound hint header whose presence activates deterministic provider
/// routing.
pub fn deterministic_provider_header() -> (r: &'static str)
    ensures
        r@ == spec_deterministic_provider_header(),
{
    "x-curve-deterministic-provider"
}

/// The name of the rate-limit selector key header, as characters.
pub open spec fn spec_ratelimit_selector_header_key() -> Seq<char> {
    "x-curve-ratelimit-selector"@
}

/// The header whose value names the header to capture as the rate-limit
/// selector (a two-hop lookup).
pub fn ratelimit_selector_header_key() -> (r: &'static str)
    ensures
        r@ == spec_ratelimit_selector_header_key(),
{
    "x-curve-ratelimit-selector"
}

/// The role of synthesized system messages.
pub fn system_role() -> (r: &'static str)
    ensures
        r@ == "system"@,
{
    "system"
}

/// The role of synthesized user messages.
pub fn user_role() -> (r: &'static str)
    ensures
        r@ == "user"@,
{
    "user"
}

} // verus!

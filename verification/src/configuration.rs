//! Typed configuration for the filter: listener, providers, prompt targets,
//! guards, rate limits and overrides.
//!
//! Fractional quantities (the intent-matching threshold, the tracing sampling
//! rate) are fixed-point integers counting millionths of a unit, so that the
//! decision arithmetic is exact.

use vstd::prelude::*;

verus! {

/// Overrides of built-in tuning knobs. The threshold is in millionths:
/// `500_000` stands for one half.
#[derive(Clone, Debug)]
pub struct Overrides {
    pub prompt_target_intent_matching_threshold: Option<i64>,
}

/// Tracing knobs. The sampling rate is in millionths of a unit.
#[derive(Clone, Debug)]
pub struct Tracing {
    pub sampling_rate: Option<i64>,
}

#[derive(Clone, Debug)]
pub struct Listener {
    pub address: String,
    pub port: u16,
    pub message_format: MessageFormat,
}

#[derive(Clone, Debug, PartialEq, Eq, Structural)]
pub enum MessageFormat {
    Huggingface,
}

impl Default for Listener {
    fn default() -> (r: Self)
        ensures
            r.address@ == Seq::<char>::empty(),
            r.port == 0,
            r.message_format == MessageFormat::Huggingface,
    {
        Listener {
            address: String::new(),
            port: 0,
            message_format: MessageFormat::Huggingface,
        }
    }
}

#[derive(Clone, Copy, Debug, PartialEq, Eq, Structural)]
pub enum GuardType {
    Jailbreak,
}

#[derive(Clone, Debug)]
pub struct OnExceptionDetails {
    pub forward_to_error_target: Option<bool>,
    pub error_handler: Option<String>,
    pub message: Option<String>,
}

#[derive(Clone, Debug)]
pub struct GuardOptions {
    pub on_exception: Option<OnExceptionDetails>,
}

/// The set of configured input guards, keyed by guard type.
#[derive(Clone, Debug)]
pub struct PromptGuards {
    pub input_guards: Vec<(GuardType, GuardOptions)>,
}

/// The options of the first guard of the given type in `gs`, if any.
pub open spec fn guard_options_of(gs: Seq<(GuardType, GuardOptions)>, t: GuardType) -> Option<
    GuardOptions,
>
    decreases gs.len(),
{
    if gs.len() == 0 {
        None
    } else if gs[0].0 == t {
        Some(gs[0].1)
    } else {
        guard_options_of(gs.drop_first(), t)
    }
}

impl PromptGuards {
    /// The options of the jailbreak guard, if one is configured.
    pub open spec fn spec_jailbreak_options(self) -> Option<GuardOptions> {
        guard_options_of(self.input_guards@, GuardType::Jailbreak)
    }

    /// Whether a jailbreak guard is configured at all.
    pub open spec fn spec_has_jailbreak_guard(self) -> bool {
        self.spec_jailbreak_options() is Some
    }

    /// The message configured for a rejected jailbreak verdict, if any.
    pub open spec fn spec_jailbreak_message(self) -> Option<String> {
        match self.spec_jailbreak_options() {
            Some(opts) => match opts.on_exception {
                Some(details) => details.message,
                None => None,
            },
            None => None,
        }
    }

    pub fn has_jailbreak_guard(&self) -> (r: bool)
        ensures
            r == self.spec_has_jailbreak_guard(),
    {
        let mut i: usize = 0;
        while i < self.input_guards.len()
            invariant
                0 <= i <= self.input_guards@.len(),
                guard_options_of(self.input_guards@.skip(i as int), GuardType::Jailbreak)
                    == self.spec_jailbreak_options(),
            decreases self.input_guards@.len() - i,
        {
            proof {
                assert(self.input_guards@.skip(i as int).drop_first()
                    =~= self.input_guards@.skip(i as int + 1));
            }
            if self.input_guards[i].0 == GuardType::Jailbreak {
                return true;
            }
            i = i + 1;
        }
        false
    }

    /// The configured message to answer a detected jailbreak with, if the
    /// guard, its exception handler and its message are all present.
    pub fn jailbreak_on_exception_message(&self) -> (r: Option<&str>)
        ensures
            match r {
                Some(m) => self.spec_jailbreak_message() matches Some(s) && s@ == m@,
                None => self.spec_jailbreak_message() is None,
            },
    {
        let mut i: usize = 0;
        while i < self.input_guards.len()
            invariant
                0 <= i <= self.input_guards@.len(),
                guard_options_of(self.input_guards@.skip(i as int), GuardType::Jailbreak)
                    == self.spec_jailbreak_options(),
            decreases self.input_guards@.len() - i,
        {
            proof {
                assert(self.input_guards@.skip(i as int).drop_first()
                    =~= self.input_guards@.skip(i as int + 1));
            }
            if self.input_guards[i].0 == GuardType::Jailbreak {
                match &self.input_guards[i].1.on_exception {
                    Some(details) => match &details.message {
                        Some(message) => {
                            return Some(message.as_str());
                        },
                        None => {
                            return None;
                        },
                    },
                    None => {
                        return None;
                    },
                }
            }
            i = i + 1;
        }
        None
    }
}

#[derive(Clone, Copy, Debug, PartialEq, Eq, Structural)]
pub enum TimeUnit {
    Second,
    Minute,
    Hour,
}

#[derive(Clone, Debug)]
pub struct Limit {
    pub tokens: u32,
    pub unit: TimeUnit,
}

/// A request header, as captured for rate-limit selection.
#[derive(Clone, Debug)]
pub struct Header {
    pub key: String,
    pub value: Option<String>,
}

#[derive(Clone, Debug)]
pub struct RatelimitHeader {
    pub name: String,
    pub value: Option<String>,
}

#[derive(Clone, Debug)]
pub struct Ratelimit {
    pub model: String,
    pub selector: Header,
    pub limit: Limit,
}

#[derive(Clone, Debug)]
pub struct LlmRatelimitSelector {
    pub http_header: Option<RatelimitHeader>,
}

#[derive(Clone, Debug)]
pub struct LlmRatelimit {
    pub selector: LlmRatelimitSelector,
    pub limit: Limit,
}

#[derive(Clone, Debug)]
pub struct EmbeddingProviver {
    pub name: String,
    pub model: String,
}

/// One upstream LLM provider. `access_key` names the request header that
/// carries this provider's api key.
#[derive(Clone, Debug)]
pub struct LlmProvider {
    pub name: String,
    pub provider: String,
    pub access_key: Option<String>,
    pub model: String,
    pub default: Option<bool>,
    pub stream: Option<bool>,
    pub rate_limits: Option<LlmRatelimit>,
}

impl LlmProvider {
    /// Whether this provider is marked as the configured default.
    pub open spec fn spec_is_default(self) -> bool {
        self.default == Some(true)
    }

    pub fn is_default(&self) -> (r: bool)
        ensures
            r == self.spec_is_default(),
    {
        match self.default {
            Some(b) => b,
            None => false,
        }
    }
}

#[derive(Clone, Copy, Debug, PartialEq, Eq, Structural)]
pub enum Method {
    Get,
    Post,
}

impl Method {
    /// The wire name of the method.
    pub fn as_str(&self) -> (r: &'static str)
        ensures
            self == Method::Get ==> r@ == "GET"@,
            self == Method::Post ==> r@ == "POST"@,
    {
        match self {
            Method::Get => "GET",
            Method::Post => "POST",
        }
    }
}

#[derive(Clone, Debug)]
pub struct Endpoint {
    pub endpoint: Option<String>,
}

#[derive(Clone, Debug)]
pub struct EndpointDetails {
    pub name: String,
    pub path: Option<String>,
    pub method: Option<Method>,
}

#[derive(Clone, Debug)]
pub struct ErrorTargetDetail {
    pub endpoint: Option<EndpointDetails>,
}

/// One typed tool parameter of a prompt target.
#[derive(Clone, Debug)]
pub struct Parameter {
    pub name: String,
    pub parameter_type: Option<String>,
    pub description: String,
    pub required: Option<bool>,
    pub enum_values: Option<Vec<String>>,
    pub default: Option<String>,
}

/// A named intent with a description fed to the embedding model and an
/// optional tool endpoint. Immutable after startup.
#[derive(Clone, Debug)]
pub struct PromptTarget {
    pub name: String,
    pub default: Option<bool>,
    pub description: String,
    pub endpoint: Option<EndpointDetails>,
    pub parameters: Option<Vec<Parameter>>,
    pub system_prompt: Option<String>,
    pub auto_llm_dispatch_on_response: Option<bool>,
}

/// The first prompt target of the given name, if any.
pub open spec fn target_of(s: Seq<PromptTarget>, name: Seq<char>) -> Option<PromptTarget>
    decreases s.len(),
{
    if s.len() == 0 {
        None
    } else if s[0].name@ == name {
        Some(s[0])
    } else {
        target_of(s.drop_first(), name)
    }
}

/// No two prompt targets share a name.
pub open spec fn targets_unique(s: Seq<PromptTarget>) -> bool {
    forall|i: int, j: int|
        0 <= i < j < s.len() ==> (#[trigger] s[i]).name@ != (#[trigger] s[j]).name@
}

/// The configured prompt target of the given name, if any.
pub fn find_target<'a>(targets: &'a Vec<PromptTarget>, name: &String) -> (r: Option<
    &'a PromptTarget,
>)
    ensures
        match r {
            Some(t) => target_of(targets@, name@) == Some(*t),
            None => target_of(targets@, name@) is None,
        },
{
    let mut i: usize = 0;
    proof {
        assert(targets@.skip(0) =~= targets@);
    }
    while i < targets.len()
        invariant
            0 <= i <= targets@.len(),
            target_of(targets@.skip(i as int), name@) == target_of(targets@, name@),
        decreases targets@.len() - i,
    {
        proof {
            assert(targets@.skip(i as int).drop_first() =~= targets@.skip(i as int + 1));
        }
        if targets[i].name == *name {
            return Some(&targets[i]);
        }
        i = i + 1;
    }
    None
}

/// A found target bears the looked-up name.
pub proof fn lemma_target_of_name(s: Seq<PromptTarget>, name: Seq<char>)
    requires
        target_of(s, name) is Some,
    ensures
        target_of(s, name).unwrap().name@ == name,
    decreases s.len(),
{
    if s.len() > 0 && s[0].name@ != name {
        lemma_target_of_name(s.drop_first(), name);
    }
}

/// An entry with the looked-up name pins the lookup to be found.
pub proof fn lemma_target_found(s: Seq<PromptTarget>, i: int, name: Seq<char>)
    requires
        0 <= i < s.len(),
        s[i].name@ == name,
    ensures
        target_of(s, name) is Some,
    decreases i,
{
    if i > 0 {
        if s[0].name@ != name {
            assert(s.drop_first()[i - 1] == s[i]);
            lemma_target_found(s.drop_first(), i - 1, name);
        }
    }
}

/// Both absent, or both present with the same characters.
pub open spec fn opt_text_like(a: Option<String>, b: Option<String>) -> bool {
    match (a, b) {
        (None, None) => true,
        (Some(x), Some(y)) => x@ == y@,
        _ => false,
    }
}

/// Same length, same characters at every position.
pub open spec fn text_vec_like(a: Seq<String>, b: Seq<String>) -> bool {
    a.len() == b.len() && forall|i: int| 0 <= i < a.len() ==> (#[trigger] a[i])@ == b[i]@
}

/// The same configured parameter, compared by content.
pub open spec fn parameter_like(a: Parameter, b: Parameter) -> bool {
    &&& a.name@ == b.name@
    &&& opt_text_like(a.parameter_type, b.parameter_type)
    &&& a.description@ == b.description@
    &&& a.required == b.required
    &&& match (a.enum_values, b.enum_values) {
        (None, None) => true,
        (Some(x), Some(y)) => text_vec_like(x@, y@),
        _ => false,
    }
    &&& opt_text_like(a.default, b.default)
}

/// The same endpoint, compared by content.
pub open spec fn endpoint_like(a: EndpointDetails, b: EndpointDetails) -> bool {
    &&& a.name@ == b.name@
    &&& opt_text_like(a.path, b.path)
    &&& a.method == b.method
}

/// The same prompt target, compared by content.
pub open spec fn target_like(a: PromptTarget, b: PromptTarget) -> bool {
    &&& a.name@ == b.name@
    &&& a.default == b.default
    &&& a.description@ == b.description@
    &&& match (a.endpoint, b.endpoint) {
        (None, None) => true,
        (Some(x), Some(y)) => endpoint_like(x, y),
        _ => false,
    }
    &&& match (a.parameters, b.parameters) {
        (None, None) => true,
        (Some(x), Some(y)) => x@.len() == y@.len() && forall|i: int|
            0 <= i < x@.len() ==> parameter_like(#[trigger] x@[i], y@[i]),
        _ => false,
    }
    &&& opt_text_like(a.system_prompt, b.system_prompt)
    &&& a.auto_llm_dispatch_on_response == b.auto_llm_dispatch_on_response
}

/// The same target list, compared by content.
pub open spec fn targets_like(a: Seq<PromptTarget>, b: Seq<PromptTarget>) -> bool {
    a.len() == b.len() && forall|i: int| 0 <= i < a.len() ==> target_like(#[trigger] a[i], b[i])
}

fn clone_opt_text(v: &Option<String>) -> (r: Option<String>)
    ensures
        opt_text_like(*v, r),
{
    match v {
        Some(s) => Some(s.clone()),
        None => None,
    }
}

fn clone_text_vec(v: &Vec<String>) -> (r: Vec<String>)
    ensures
        text_vec_like(v@, r@),
{
    let mut out: Vec<String> = Vec::new();
    let mut i: usize = 0;
    while i < v.len()
        invariant
            0 <= i <= v@.len(),
            out@.len() == i,
            forall|j: int| 0 <= j < i ==> (#[trigger] v@[j])@ == out@[j]@,
        decreases v@.len() - i,
    {
        out.push(v[i].clone());
        i = i + 1;
    }
    out
}

/// A copy of a parameter with the same content.
pub fn clone_parameter(p: &Parameter) -> (r: Parameter)
    ensures
        parameter_like(*p, r),
{
    Parameter {
        name: p.name.clone(),
        parameter_type: clone_opt_text(&p.parameter_type),
        description: p.description.clone(),
        required: p.required,
        enum_values: match &p.enum_values {
            Some(ev) => Some(clone_text_vec(ev)),
            None => None,
        },
        default: clone_opt_text(&p.default),
    }
}

/// A copy of an endpoint with the same content.
pub fn clone_endpoint(e: &EndpointDetails) -> (r: EndpointDetails)
    ensures
        endpoint_like(*e, r),
{
    EndpointDetails { name: e.name.clone(), path: clone_opt_text(&e.path), method: e.method }
}

/// A copy of a prompt target with the same content.
pub fn clone_target(t: &PromptTarget) -> (r: PromptTarget)
    ensures
        target_like(*t, r),
{
    let parameters: Option<Vec<Parameter>> = match &t.parameters {
        Some(ps) => {
            let mut out: Vec<Parameter> = Vec::new();
            let mut i: usize = 0;
            while i < ps.len()
                invariant
                    0 <= i <= ps@.len(),
                    out@.len() == i,
                    forall|j: int| 0 <= j < i ==> parameter_like(ps@[j], #[trigger] out@[j]),
                decreases ps@.len() - i,
            {
                let p = clone_parameter(&ps[i]);
                out.push(p);
                i = i + 1;
            }
            Some(out)
        },
        None => None,
    };
    PromptTarget {
        name: t.name.clone(),
        default: t.default,
        description: t.description.clone(),
        endpoint: match &t.endpoint {
            Some(e) => Some(clone_endpoint(e)),
            None => None,
        },
        parameters,
        system_prompt: clone_opt_text(&t.system_prompt),
        auto_llm_dispatch_on_response: t.auto_llm_dispatch_on_response,
    }
}

/// A copy of a target list with the same content.
pub fn clone_targets(v: &Vec<PromptTarget>) -> (r: Vec<PromptTarget>)
    ensures
        targets_like(v@, r@),
        targets_unique(v@) ==> targets_unique(r@),
{
    let mut out: Vec<PromptTarget> = Vec::new();
    let mut i: usize = 0;
    while i < v.len()
        invariant
            0 <= i <= v@.len(),
            out@.len() == i,
            forall|j: int| 0 <= j < i ==> target_like(#[trigger] v@[j], out@[j]),
        decreases v@.len() - i,
    {
        let t = clone_target(&v[i]);
        out.push(t);
        i = i + 1;
    }
    proof {
        if targets_unique(v@) {
            assert forall|i: int, j: int| 0 <= i < j < out@.len() implies (
            #[trigger] out@[i]).name@ != (#[trigger] out@[j]).name@ by {
                assert(target_like(v@[i], out@[i]));
                assert(target_like(v@[j], out@[j]));
                assert(v@[i].name@ != v@[j].name@);
            }
        }
    }
    out
}

/// The same guard options, compared by content.
pub open spec fn guard_options_like(a: GuardOptions, b: GuardOptions) -> bool {
    match (a.on_exception, b.on_exception) {
        (None, None) => true,
        (Some(x), Some(y)) => x.forward_to_error_target == y.forward_to_error_target
            && opt_text_like(x.error_handler, y.error_handler) && opt_text_like(
            x.message,
            y.message,
        ),
        _ => false,
    }
}

/// The same guard set, compared by content.
pub open spec fn guards_like(a: PromptGuards, b: PromptGuards) -> bool {
    &&& a.input_guards@.len() == b.input_guards@.len()
    &&& forall|i: int|
        0 <= i < a.input_guards@.len() ==> (#[trigger] a.input_guards@[i]).0
            == b.input_guards@[i].0 && guard_options_like(
            a.input_guards@[i].1,
            b.input_guards@[i].1,
        )
}

/// A copy of the guard set with the same content.
pub fn clone_prompt_guards(g: &PromptGuards) -> (r: PromptGuards)
    ensures
        guards_like(*g, r),
{
    let mut out: Vec<(GuardType, GuardOptions)> = Vec::new();
    let mut i: usize = 0;
    while i < g.input_guards.len()
        invariant
            0 <= i <= g.input_guards@.len(),
            out@.len() == i,
            forall|j: int|
                0 <= j < i ==> (#[trigger] g.input_guards@[j]).0 == out@[j].0
                    && guard_options_like(g.input_guards@[j].1, out@[j].1),
        decreases g.input_guards@.len() - i,
    {
        let kind = g.input_guards[i].0;
        let options = GuardOptions {
            on_exception: match &g.input_guards[i].1.on_exception {
                Some(d) => Some(
                    OnExceptionDetails {
                        forward_to_error_target: d.forward_to_error_target,
                        error_handler: clone_opt_text(&d.error_handler),
                        message: clone_opt_text(&d.message),
                    },
                ),
                None => None,
            },
        };
        out.push((kind, options));
        i = i + 1;
    }
    PromptGuards { input_guards: out }
}

/// Content-equal guard sets agree on the jailbreak guard and its message.
pub proof fn lemma_guards_like_jailbreak(a: PromptGuards, b: PromptGuards)
    requires
        guards_like(a, b),
    ensures
        a.spec_has_jailbreak_guard() == b.spec_has_jailbreak_guard(),
        opt_text_like(a.spec_jailbreak_message(), b.spec_jailbreak_message()),
{
    lemma_guard_options_of_like(a.input_guards@, b.input_guards@, GuardType::Jailbreak);
}

proof fn lemma_guard_options_of_like(
    a: Seq<(GuardType, GuardOptions)>,
    b: Seq<(GuardType, GuardOptions)>,
    t: GuardType,
)
    requires
        a.len() == b.len(),
        forall|i: int|
            0 <= i < a.len() ==> (#[trigger] a[i]).0 == b[i].0 && guard_options_like(
                a[i].1,
                b[i].1,
            ),
    ensures
        guard_options_of(a, t) is Some <==> guard_options_of(b, t) is Some,
        match (guard_options_of(a, t), guard_options_of(b, t)) {
            (Some(x), Some(y)) => guard_options_like(x, y),
            (None, None) => true,
            _ => false,
        },
    decreases a.len(),
{
    if a.len() > 0 {
        if a[0].0 == t {
        } else {
            assert forall|i: int|
                0 <= i < a.drop_first().len() implies (#[trigger] a.drop_first()[i]).0
                == b.drop_first()[i].0 && guard_options_like(
                a.drop_first()[i].1,
                b.drop_first()[i].1,
            ) by {
                assert(a.drop_first()[i] == a[i + 1]);
                assert(b.drop_first()[i] == b[i + 1]);
            }
            lemma_guard_options_of_like(a.drop_first(), b.drop_first(), t);
        }
    }
}

/// The whole filter configuration, as handed over by the host at startup.
#[derive(Clone, Debug)]
pub struct Configuration {
    pub version: String,
    pub listener: Listener,
    pub endpoints: Vec<(String, Endpoint)>,
    pub llm_providers: Vec<LlmProvider>,
    pub overrides: Option<Overrides>,
    pub system_prompt: Option<String>,
    pub prompt_guards: Option<PromptGuards>,
    pub prompt_targets: Vec<PromptTarget>,
    pub error_target: Option<ErrorTargetDetail>,
    pub ratelimits: Option<Vec<Ratelimit>>,
    pub tracing: Option<Tracing>,
}

} // verus!

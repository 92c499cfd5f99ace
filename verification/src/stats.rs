//! Process-wide metrics: a monotone counter and a gauge, as plain integer
//! cells whose updates are stated exactly. The host shell maps them
//! onto the host's metric registry.

use vstd::prelude::*;

verus! {

/// A monotone counter.
#[derive(Clone, Debug)]
pub struct Counter {
    pub value: u64,
}

impl Counter {
    pub fn new() -> (r: Counter)
        ensures
            r.value == 0,
    {
        Counter { value: 0 }
    }

    pub fn increment(&mut self, n: u64)
        requires
            old(self).value + n <= u64::MAX,
        ensures
            final(self).value == old(self).value + n,
    {
        self.value = self.value + n;
    }
}

/// A gauge that can move both ways.
#[derive(Clone, Debug)]
pub struct Gauge {
    pub value: i64,
}

impl Gauge {
    pub fn new() -> (r: Gauge)
        ensures
            r.value == 0,
    {
        Gauge { value: 0 }
    }

    pub fn increment(&mut self, delta: i64)
        requires
            i64::MIN <= old(self).value + delta <= i64::MAX,
        ensures
            final(self).value == old(self).value + delta,
    {
        self.value = self.value + delta;
    }

    pub fn record(&mut self, v: i64)
        ensures
            final(self).value == v,
    {
        self.value = v;
    }
}

/// The metrics the filter keeps: in-flight outbound calls and rejected
/// rate-limited requests.
#[derive(Clone, Debug)]
pub struct WasmMetrics {
    pub active_http_calls: Gauge,
    pub ratelimited_rq: Counter,
}

impl WasmMetrics {
    pub fn new() -> (r: WasmMetrics)
        ensures
            r.active_http_calls.value == 0,
            r.ratelimited_rq.value == 0,
    {
        WasmMetrics { active_http_calls: Gauge::new(), ratelimited_rq: Counter::new() }
    }
}

} // verus!

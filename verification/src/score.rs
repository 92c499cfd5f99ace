//! Fixed-point similarity arithmetic for the intent resolver.
//!
//! Vector components and scores count millionths of a unit. The cosine
//! similarity of two vectors is `dot(a, b) / (|a| * |b|)`, computed exactly
//! over integers with floor square roots and truncating division, and capped
//! at one unit in magnitude; a zero-length side yields zero.

use crate::consts::SCORE_SCALE;
use vstd::prelude::*;

verus! {

/// The largest admitted magnitude of one vector component (one unit).
pub const MAX_COMPONENT: i64 = 1_000_000;

/// The largest admitted vector dimension.
pub const MAX_VECTOR_DIM: usize = 100_000;

/// The largest magnitude one component product can have.
pub const MAX_COMPONENT_PRODUCT: i64 = 1_000_000_000_000;

/// A vector the similarity arithmetic admits: bounded dimension, every
/// component within one unit.
pub open spec fn vector_in_range(v: Seq<i64>) -> bool {
    &&& v.len() <= MAX_VECTOR_DIM
    &&& forall|i: int|
        0 <= i < v.len() ==> -MAX_COMPONENT <= #[trigger] v[i] <= MAX_COMPONENT
}

/// The dot product of two vectors, over the shared prefix.
pub open spec fn dot(a: Seq<i64>, b: Seq<i64>) -> int
    decreases a.len(),
{
    if a.len() == 0 || b.len() == 0 {
        0
    } else {
        a[0] * b[0] + dot(a.drop_first(), b.drop_first())
    }
}

/// The floor of the square root.
pub open spec fn isqrt_spec(n: nat) -> nat
    decreases n,
{
    if n == 0 {
        0
    } else {
        let r = isqrt_spec((n - 1) as nat);
        if (r + 1) * (r + 1) <= n {
            r + 1
        } else {
            r
        }
    }
}

proof fn lemma_isqrt_spec_bounds(n: nat)
    ensures
        isqrt_spec(n) * isqrt_spec(n) <= n,
        n < (isqrt_spec(n) + 1) * (isqrt_spec(n) + 1),
    decreases n,
{
    if n == 0 {
        let s = isqrt_spec(n);
        assert(s == 0);
        assert(n < (s + 1) * (s + 1)) by (nonlinear_arith)
            requires
                s == 0nat,
                n == 0nat,
        ;
    } else {
        lemma_isqrt_spec_bounds((n - 1) as nat);
        let r = isqrt_spec((n - 1) as nat);
        assert(r * r <= n - 1);
        assert(n - 1 < (r + 1) * (r + 1));
        if (r + 1) * (r + 1) <= n {
            assert(isqrt_spec(n) == r + 1);
            assert((r + 1) * (r + 1) < (r + 2) * (r + 2)) by (nonlinear_arith);
            assert(isqrt_spec(n) * isqrt_spec(n) <= n);
            assert(n < (isqrt_spec(n) + 1) * (isqrt_spec(n) + 1));
        } else {
            assert(isqrt_spec(n) == r);
            assert(isqrt_spec(n) * isqrt_spec(n) <= n);
            assert(n < (isqrt_spec(n) + 1) * (isqrt_spec(n) + 1));
        }
    }
}

proof fn lemma_isqrt_unique(n: nat, x: nat, y: nat)
    requires
        x * x <= n < (x + 1) * (x + 1),
        y * y <= n < (y + 1) * (y + 1),
    ensures
        x == y,
{
    assert(x == y) by (nonlinear_arith)
        requires
            x * x <= n < (x + 1) * (x + 1),
            y * y <= n < (y + 1) * (y + 1),
    ;
}

/// Peeling one index off the front of a dot product.
proof fn lemma_dot_skip(a: Seq<i64>, b: Seq<i64>, i: int)
    requires
        0 <= i < a.len(),
        i < b.len(),
    ensures
        dot(a.skip(i), b.skip(i)) == a[i] * b[i] + dot(a.skip(i + 1), b.skip(i + 1)),
{
    assert(a.skip(i).drop_first() =~= a.skip(i + 1));
    assert(b.skip(i).drop_first() =~= b.skip(i + 1));
    assert(a.skip(i)[0] == a[i]);
    assert(b.skip(i)[0] == b[i]);
}

/// The dot product of admitted vectors is bounded by the dimension times the
/// largest component product.
proof fn lemma_dot_bound(a: Seq<i64>, b: Seq<i64>)
    requires
        forall|i: int| 0 <= i < a.len() ==> -MAX_COMPONENT <= #[trigger] a[i] <= MAX_COMPONENT,
        forall|i: int| 0 <= i < b.len() ==> -MAX_COMPONENT <= #[trigger] b[i] <= MAX_COMPONENT,
    ensures
        -(a.len() * MAX_COMPONENT_PRODUCT) <= dot(a, b) <= a.len() * MAX_COMPONENT_PRODUCT,
    decreases a.len(),
{
    if a.len() > 0 && b.len() > 0 {
        lemma_dot_bound(a.drop_first(), b.drop_first());
        assert(-MAX_COMPONENT_PRODUCT <= a[0] * b[0] <= MAX_COMPONENT_PRODUCT)
            by (nonlinear_arith)
            requires
                -MAX_COMPONENT <= a[0] <= MAX_COMPONENT,
                -MAX_COMPONENT <= b[0] <= MAX_COMPONENT,
        ;
    }
}

/// A dot product of a vector with itself is never negative.
proof fn lemma_dot_self_nonneg(a: Seq<i64>)
    ensures
        dot(a, a) >= 0,
    decreases a.len(),
{
    if a.len() > 0 {
        lemma_dot_self_nonneg(a.drop_first());
        assert(a[0] * a[0] >= 0) by (nonlinear_arith);
    }
}

/// The dot product of two admitted vectors, as an exact integer.
fn dot_i64(a: &Vec<i64>, b: &Vec<i64>) -> (r: i64)
    requires
        vector_in_range(a@),
        vector_in_range(b@),
    ensures
        r as int == dot(a@, b@),
{
    let n = if a.len() < b.len() {
        a.len()
    } else {
        b.len()
    };
    let mut acc: i64 = 0;
    let mut i: usize = 0;
    proof {
        assert(a@.skip(0) =~= a@);
        assert(b@.skip(0) =~= b@);
    }
    while i < n
        invariant
            0 <= i <= n,
            n <= a@.len(),
            n <= b@.len(),
            n == if a@.len() < b@.len() {
                a@.len() as int
            } else {
                b@.len() as int
            },
            vector_in_range(a@),
            vector_in_range(b@),
            acc + dot(a@.skip(i as int), b@.skip(i as int)) == dot(a@, b@),
            -(i * MAX_COMPONENT_PRODUCT) <= acc <= i * MAX_COMPONENT_PRODUCT,
        decreases n - i,
    {
        let p: i64 = {
            proof {
                assert(-MAX_COMPONENT_PRODUCT <= a@[i as int] * b@[i as int]
                    <= MAX_COMPONENT_PRODUCT) by (nonlinear_arith)
                    requires
                        -MAX_COMPONENT <= a@[i as int] <= MAX_COMPONENT,
                        -MAX_COMPONENT <= b@[i as int] <= MAX_COMPONENT,
                ;
            }
            a[i] * b[i]
        };
        proof {
            lemma_dot_skip(a@, b@, i as int);
            assert(i * MAX_COMPONENT_PRODUCT + MAX_COMPONENT_PRODUCT
                == (i + 1) * MAX_COMPONENT_PRODUCT) by (nonlinear_arith);
            assert((i + 1) * MAX_COMPONENT_PRODUCT <= MAX_VECTOR_DIM * MAX_COMPONENT_PRODUCT)
                by (nonlinear_arith)
                requires
                    i + 1 <= MAX_VECTOR_DIM,
            ;
        }
        acc = acc + p;
        i = i + 1;
    }
    proof {
        if a@.len() < b@.len() {
            assert(dot(a@.skip(n as int), b@.skip(n as int)) == 0);
        } else {
            assert(dot(a@.skip(n as int), b@.skip(n as int)) == 0);
        }
    }
    acc
}

/// The floor square root.
fn isqrt_u64(n: u64) -> (r: u64)
    ensures
        r == isqrt_spec(n as nat),
{
    let mut lo: u64 = 0;
    let mut hi: u64 = 4_294_967_295;
    proof {
        assert((hi + 1) * (hi + 1) > n as int) by (nonlinear_arith)
            requires
                hi == 4_294_967_295u64,
                n <= u64::MAX,
        ;
    }
    while lo < hi
        invariant
            lo <= hi <= 4_294_967_295,
            lo * lo <= n,
            n < (hi + 1) * (hi + 1),
        decreases hi - lo,
    {
        let mid: u64 = lo + (hi - lo + 1) / 2;
        proof {
            assert(mid as int * mid as int <= 4_294_967_295i64 * 4_294_967_295i64)
                by (nonlinear_arith)
                requires
                    0 <= mid <= 4_294_967_295u64,
            ;
        }
        let sq: u128 = (mid as u128) * (mid as u128);
        if sq <= n as u128 {
            lo = mid;
        } else {
            hi = mid - 1;
        }
    }
    proof {
        lemma_isqrt_spec_bounds(n as nat);
        lemma_isqrt_unique(n as nat, lo as nat, isqrt_spec(n as nat));
    }
    lo
}

/// The cosine similarity of `a` and `b`, in millionths, capped at one unit
/// in magnitude; zero when either side has no magnitude.
pub open spec fn cosine_micros(a: Seq<i64>, b: Seq<i64>) -> int {
    let d = dot(a, b);
    let na = isqrt_spec(dot(a, a) as nat);
    let nb = isqrt_spec(dot(b, b) as nat);
    if na == 0 || nb == 0 {
        0
    } else {
        let q = (if d < 0 {
            -d
        } else {
            d
        }) * SCORE_SCALE / (na * nb) as int;
        let c = if q > SCORE_SCALE {
            SCORE_SCALE as int
        } else {
            q
        };
        if d < 0 {
            -c
        } else {
            c
        }
    }
}

/// The similarity score of two admitted vectors.
pub fn cosine_similarity_micros(a: &Vec<i64>, b: &Vec<i64>) -> (r: i64)
    requires
        vector_in_range(a@),
        vector_in_range(b@),
    ensures
        r as int == cosine_micros(a@, b@),
        -SCORE_SCALE <= r <= SCORE_SCALE,
{
    proof {
        lemma_dot_bound(a@, b@);
        lemma_dot_bound(a@, a@);
        lemma_dot_bound(b@, b@);
        lemma_dot_self_nonneg(a@);
        lemma_dot_self_nonneg(b@);
        assert(a@.len() * MAX_COMPONENT_PRODUCT <= MAX_VECTOR_DIM * MAX_COMPONENT_PRODUCT)
            by (nonlinear_arith)
            requires
                a@.len() <= MAX_VECTOR_DIM,
        ;
        assert(b@.len() * MAX_COMPONENT_PRODUCT <= MAX_VECTOR_DIM * MAX_COMPONENT_PRODUCT)
            by (nonlinear_arith)
            requires
                b@.len() <= MAX_VECTOR_DIM,
        ;
    }
    let d: i64 = dot_i64(a, b);
    let nsa: i64 = dot_i64(a, a);
    let nsb: i64 = dot_i64(b, b);
    let na: u64 = isqrt_u64(nsa as u64);
    let nb: u64 = isqrt_u64(nsb as u64);
    if na == 0 || nb == 0 {
        return 0;
    }
    proof {
        lemma_isqrt_spec_bounds(nsa as nat);
        lemma_isqrt_spec_bounds(nsb as nat);
        assert(na * nb <= nsa as int * nsb as int) by (nonlinear_arith)
            requires
                na * na <= nsa as int,
                nb * nb <= nsb as int,
                1 <= na,
                1 <= nb,
        ;
    }
    let absd: u128 = if d < 0 {
        (-d) as u128
    } else {
        d as u128
    };
    proof {
        assert(1 <= na as int * nb as int <= 0xffffffffffffffff * 0xffffffffffffffff)
            by (nonlinear_arith)
            requires
                1 <= na <= 0xffffffffffffffffu64,
                1 <= nb <= 0xffffffffffffffffu64,
        ;
    }
    let prod: u128 = (na as u128) * (nb as u128);
    proof {
        assert(absd as int * SCORE_SCALE as int
            <= 0x8000000000000000 * 1_000_000) by (nonlinear_arith)
            requires
                0 <= absd <= 0x8000000000000000u128,
                SCORE_SCALE == 1_000_000i64,
        ;
    }
    let q128: u128 = absd * (SCORE_SCALE as u128) / prod;
    let q: i64 = if q128 > SCORE_SCALE as u128 {
        SCORE_SCALE
    } else {
        q128 as i64
    };
    if d < 0 {
        -q
    } else {
        q
    }
}

/// One component forced into the admitted range.
pub open spec fn clamp_component(x: i64) -> i64 {
    if x > MAX_COMPONENT {
        MAX_COMPONENT
    } else if x < -1_000_000 {
        -1_000_000i64
    } else {
        x
    }
}

/// A vector forced into the admitted range: excess dimensions dropped,
/// every component clamped to one unit.
pub open spec fn clamp_vector_spec(s: Seq<i64>) -> Seq<i64> {
    (if s.len() <= MAX_VECTOR_DIM {
        s
    } else {
        s.take(MAX_VECTOR_DIM as int)
    }).map_values(|x: i64| clamp_component(x))
}

/// Forces a raw vector into the range the similarity arithmetic admits.
pub fn clamp_vector(v: &Vec<i64>) -> (r: Vec<i64>)
    ensures
        r@ == clamp_vector_spec(v@),
        vector_in_range(r@),
{
    let n = if v.len() <= MAX_VECTOR_DIM {
        v.len()
    } else {
        MAX_VECTOR_DIM
    };
    let mut out: Vec<i64> = Vec::new();
    let mut i: usize = 0;
    while i < n
        invariant
            0 <= i <= n,
            n == if v@.len() <= MAX_VECTOR_DIM {
                v@.len() as int
            } else {
                MAX_VECTOR_DIM as int
            },
            n <= v@.len(),
            out@.len() == i,
            forall|j: int| 0 <= j < i ==> #[trigger] out@[j] == clamp_component(v@[j]),
        decreases n - i,
    {
        let x = v[i];
        let c: i64 = if x > MAX_COMPONENT {
            MAX_COMPONENT
        } else if x < -MAX_COMPONENT {
            -MAX_COMPONENT
        } else {
            x
        };
        out.push(c);
        i = i + 1;
    }
    proof {
        assert(out@ =~= clamp_vector_spec(v@));
    }
    out
}

/// Whether the fused intent score reaches the threshold:
/// `0.7 * zs + 0.3 * desc >= threshold`, exactly in millionths.
pub open spec fn spec_intent_match(zs: int, desc: int, threshold: int) -> bool {
    7 * zs + 3 * desc >= 10 * threshold
}

/// How the resolver route is decided from one embedding/zero-shot reply
/// pair: the fused score falls below the threshold and no continuity
/// override holds exactly when the request passes through.
pub open spec fn spec_resolver_route(
    zs: int,
    desc: int,
    threshold: int,
    continuity: bool,
) -> bool {
    !(7 * zs + 3 * desc < 10 * threshold && !continuity)
}

/// Fusion score law: the route to the resolver is taken if and only if
/// `0.7 * zs + 0.3 * desc >= threshold` — exactly, in millionths — or the
/// assistant-continuity override holds.
pub proof fn lemma_fusion_score_law(zs: int, desc: int, threshold: int, continuity: bool)
    ensures
        spec_resolver_route(zs, desc, threshold, continuity) == (spec_intent_match(
            zs,
            desc,
            threshold,
        ) || continuity),
{
}

pub fn intent_match(zs: i64, desc: i64, threshold: i64) -> (r: bool)
    requires
        -SCORE_SCALE <= zs <= SCORE_SCALE,
        -SCORE_SCALE <= desc <= SCORE_SCALE,
        -SCORE_SCALE <= threshold <= SCORE_SCALE,
    ensures
        r == spec_intent_match(zs as int, desc as int, threshold as int),
{
    7 * zs + 3 * desc >= 10 * threshold
}

} // verus!

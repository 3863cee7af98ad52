//! Fixed-point arithmetic in millionths that saturates instead of overflowing.
//!
//! Every physical quantity of the simulation (positions, angles, magnet
//! strengths, accumulated losses) is an `i64` counting millionths of its unit.
//! The operations here are total: a result that would leave `[-LIMIT, LIMIT]`
//! is clamped to the nearest end of that interval, so no quantity can overflow
//! or become undefined, whatever the player does to the machine.

use vstd::prelude::*;

verus! {

/// The fixed-point representation of 1.
pub const ONE: i64 = 1_000_000;

/// The largest magnitude that an operation of this module returns.
pub const LIMIT: i64 = 1_000_000_000_000;

/// `v` brought into `[lo, hi]`; `lo` where the interval is empty and `v < lo`.
pub open spec fn clamp_between(v: int, lo: int, hi: int) -> int {
    if v < lo {
        lo
    } else if v > hi {
        hi
    } else {
        v
    }
}

/// `v` brought into `[-LIMIT, LIMIT]`.
pub open spec fn saturate(v: int) -> int {
    clamp_between(v, -(LIMIT as int), LIMIT as int)
}

/// The quotient of `a` by a positive `b`, rounded toward zero.
pub open spec fn div_toward_zero(a: int, b: int) -> int {
    if a >= 0 {
        a / b
    } else {
        -((-a) / b)
    }
}

/// The saturated sum.
pub open spec fn spec_plus(a: i64, b: i64) -> i64 {
    saturate(a + b) as i64
}

/// The saturated difference.
pub open spec fn spec_minus(a: i64, b: i64) -> i64 {
    saturate(a - b) as i64
}

/// The saturated fixed-point product: `a * b / ONE`, rounded toward zero.
pub open spec fn spec_times(a: i64, b: i64) -> i64 {
    saturate(div_toward_zero(a * b, ONE as int)) as i64
}

/// The saturated value of `a * num / den`, rounded toward zero; `den` is positive.
pub open spec fn spec_scale(a: i64, num: i64, den: i64) -> i64 {
    saturate(div_toward_zero(a * num, den as int)) as i64
}

/// The saturated absolute value.
pub open spec fn spec_magnitude(a: i64) -> i64 {
    saturate(if a < 0 { -a } else { a as int }) as i64
}

/// The saturated negation.
pub open spec fn spec_negate(a: i64) -> i64 {
    saturate(-a) as i64
}

/// `v` clamped into `[lo, hi]`.
pub open spec fn spec_clamp(v: i64, lo: i64, hi: i64) -> i64 {
    clamp_between(v as int, lo as int, hi as int) as i64
}

/// The larger of two values.
pub open spec fn spec_at_least(v: i64, floor: i64) -> i64 {
    if v < floor {
        floor
    } else {
        v
    }
}

/// The smaller of two values.
pub open spec fn spec_at_most(v: i64, ceiling: i64) -> i64 {
    if v > ceiling {
        ceiling
    } else {
        v
    }
}

/// Whether `v` lies in `[-LIMIT, LIMIT]`.
pub open spec fn in_range(v: i64) -> bool {
    -LIMIT <= v <= LIMIT
}

fn saturate_wide(v: i128) -> (r: i64)
    ensures
        r == saturate(v as int),
{
    if v < -(LIMIT as i128) {
        -LIMIT
    } else if v > LIMIT as i128 {
        LIMIT
    } else {
        v as i64
    }
}

proof fn lemma_product_fits(a: i64, b: i64)
    ensures
        -0x4000_0000_0000_0000_0000_0000_0000_0000 <= a as int * b as int
            <= 0x4000_0000_0000_0000_0000_0000_0000_0000,
{
    assert(-0x4000_0000_0000_0000_0000_0000_0000_0000 <= a as int * b as int
        <= 0x4000_0000_0000_0000_0000_0000_0000_0000) by (nonlinear_arith)
        requires
            -0x8000_0000_0000_0000 <= a as int <= 0x8000_0000_0000_0000,
            -0x8000_0000_0000_0000 <= b as int <= 0x8000_0000_0000_0000,
    ;
}

/// Adds two quantities, saturating at `±LIMIT`.
#[verifier::when_used_as_spec(spec_plus)]
pub fn plus(a: i64, b: i64) -> (r: i64)
    ensures
        r == spec_plus(a, b),
        in_range(r),
{
    saturate_wide(a as i128 + b as i128)
}

/// Subtracts `b` from `a`, saturating at `±LIMIT`.
#[verifier::when_used_as_spec(spec_minus)]
pub fn minus(a: i64, b: i64) -> (r: i64)
    ensures
        r == spec_minus(a, b),
        in_range(r),
{
    saturate_wide(a as i128 - b as i128)
}

/// Multiplies two fixed-point quantities, rounding toward zero and
/// saturating at `±LIMIT`.
#[verifier::when_used_as_spec(spec_times)]
pub fn times(a: i64, b: i64) -> (r: i64)
    ensures
        r == spec_times(a, b),
        in_range(r),
{
    proof {
        lemma_product_fits(a, b);
    }
    let wide: i128 = (a as i128) * (b as i128);
    saturate_wide(wide / (ONE as i128))
}

/// Multiplies `a` by the ratio `num / den`, rounding toward zero and
/// saturating at `±LIMIT`.
#[verifier::when_used_as_spec(spec_scale)]
pub fn scale(a: i64, num: i64, den: i64) -> (r: i64)
    requires
        den > 0,
    ensures
        r == spec_scale(a, num, den),
        in_range(r),
{
    proof {
        lemma_product_fits(a, num);
    }
    let wide: i128 = (a as i128) * (num as i128);
    saturate_wide(wide / (den as i128))
}

/// The absolute value, saturating at `LIMIT`.
#[verifier::when_used_as_spec(spec_magnitude)]
pub fn magnitude(a: i64) -> (r: i64)
    ensures
        r == spec_magnitude(a),
        0 <= r <= LIMIT,
{
    if a < 0 {
        saturate_wide(-(a as i128))
    } else {
        saturate_wide(a as i128)
    }
}

/// The negation, saturating at `±LIMIT`.
#[verifier::when_used_as_spec(spec_negate)]
pub fn negate(a: i64) -> (r: i64)
    ensures
        r == spec_negate(a),
        in_range(r),
{
    saturate_wide(-(a as i128))
}

/// Clamps `v` into `[lo, hi]`.
#[verifier::when_used_as_spec(spec_clamp)]
pub fn clamp(v: i64, lo: i64, hi: i64) -> (r: i64)
    requires
        lo <= hi,
    ensures
        r == spec_clamp(v, lo, hi),
        lo <= r <= hi,
{
    if v < lo {
        lo
    } else if v > hi {
        hi
    } else {
        v
    }
}

/// The larger of `v` and `floor`.
#[verifier::when_used_as_spec(spec_at_least)]
pub fn at_least(v: i64, floor: i64) -> (r: i64)
    ensures
        r == spec_at_least(v, floor),
{
    if v < floor {
        floor
    } else {
        v
    }
}

/// The smaller of `v` and `ceiling`.
#[verifier::when_used_as_spec(spec_at_most)]
pub fn at_most(v: i64, ceiling: i64) -> (r: i64)
    ensures
        r == spec_at_most(v, ceiling),
{
    if v > ceiling {
        ceiling
    } else {
        v
    }
}

/// Within range, the saturating operations are the exact ones: sums and
/// differences of quantities whose exact result has magnitude at most `LIMIT`
/// are not altered, and multiplying by `ONE` changes nothing.
pub proof fn lemma_exact_in_range(a: i64, b: i64)
    ensures
        -LIMIT <= a + b <= LIMIT ==> plus(a, b) == a + b,
        -LIMIT <= a - b <= LIMIT ==> minus(a, b) == a - b,
        in_range(a) ==> times(a, ONE) == a,
        in_range(a) ==> negate(negate(a)) == a,
{
    if in_range(a) {
        assert(a * ONE / (ONE as int) == a) by (nonlinear_arith);
        assert((-(a * ONE)) / (ONE as int) == -a) by (nonlinear_arith);
        assert(a >= 0 ==> a * ONE >= 0) by (nonlinear_arith);
        assert(a < 0 ==> a * ONE < 0) by (nonlinear_arith);
    }
}

/// The saturating sum is monotonic in its second argument.
pub proof fn lemma_plus_monotonic(a: i64, b: i64, c: i64)
    requires
        b <= c,
    ensures
        plus(a, b) <= plus(a, c),
{
}

} // verus!

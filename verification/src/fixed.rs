//! Fixed-point arithmetic in millionths.
//!
//! Every quantity of the simulation (a length, a speed, an angle in degrees)
//! is an `i64` counting millionths of its unit. Products are formed exactly in
//! `i128` and brought back to millionths by one rounded division; results
//! that leave the `i64` range stick at its ends.

use vstd::arithmetic::div_mod::{
    lemma_div_is_ordered, lemma_div_is_ordered_by_denominator, lemma_div_pos_is_pos,
};
use vstd::prelude::*;

verus! {

/// One whole unit, in millionths.
pub const SCALE: i64 = 1_000_000;

/// The largest magnitude that `div_round` takes as a numerator.
pub(crate) const ROUND_LIMIT: i128 = 0x1000_0000_0000_0000_0000_0000_0000_0000;

/// `v` held between `lo` and `hi`.
pub open spec fn clamp(v: int, lo: int, hi: int) -> int {
    if v < lo {
        lo
    } else if v > hi {
        hi
    } else {
        v
    }
}

/// `v` held within the range of `i64`.
pub open spec fn saturate(v: int) -> int {
    clamp(v, i64::MIN as int, i64::MAX as int)
}

/// The quotient `n / d` rounded to the nearest integer, halves away from zero.
pub open spec fn round_div(n: int, d: int) -> int
    recommends
        d > 0,
{
    if n >= 0 {
        (2 * n + d) / (2 * d)
    } else {
        -((2 * (-n) + d) / (2 * d))
    }
}

/// The product of two values in millionths, in millionths.
pub open spec fn scale_mul(a: int, b: int) -> int {
    round_div(a * b, SCALE as int)
}

/// Rounding commutes with negation.
pub proof fn lemma_round_div_odd(n: int, d: int)
    requires
        d > 0,
    ensures
        round_div(-n, d) == -round_div(n, d),
{
    if n == 0 {
        assert(round_div(0, d) == 0) by (nonlinear_arith)
            requires
                d > 0,
                round_div(0, d) == (2 * 0 + d) / (2 * d),
        ;
    }
}

/// A multiple of the divisor is divided exactly.
pub proof fn lemma_round_div_exact(q: int, d: int)
    requires
        d > 0,
    ensures
        round_div(q * d, d) == q,
{
    if q >= 0 {
        assert(q * d >= 0 && (2 * (q * d) + d) / (2 * d) == q) by (nonlinear_arith)
            requires
                d > 0,
                q >= 0,
        ;
    } else {
        assert(q * d < 0 && (2 * (-(q * d)) + d) / (2 * d) == -q) by (nonlinear_arith)
            requires
                d > 0,
                q < 0,
        ;
    }
}

/// Rounded division keeps the order of its numerators.
pub proof fn lemma_round_div_monotonic(m: int, n: int, d: int)
    requires
        d > 0,
        m <= n,
    ensures
        round_div(m, d) <= round_div(n, d),
{
    let dd = 2 * d;
    if m >= 0 {
        lemma_div_is_ordered(2 * m + d, 2 * n + d, dd);
    } else if n >= 0 {
        lemma_div_pos_is_pos(2 * (-m) + d, dd);
        lemma_div_pos_is_pos(2 * n + d, dd);
    } else {
        lemma_div_is_ordered(2 * (-n) + d, 2 * (-m) + d, dd);
    }
}

/// A quotient is bounded by the bound of its numerator: if `|n| <= q * d`
/// then `|round_div(n, d)| <= q`.
pub proof fn lemma_round_div_bound(n: int, d: int, q: int)
    requires
        d > 0,
        q >= 0,
        -(q * d) <= n <= q * d,
    ensures
        -q <= round_div(n, d) <= q,
{
    lemma_round_div_exact(q, d);
    lemma_round_div_exact(-q, d);
    assert((-q) * d == -(q * d)) by (nonlinear_arith);
    lemma_round_div_monotonic(-(q * d), n, d);
    lemma_round_div_monotonic(n, q * d, d);
}

/// `v` held between `lo` and `hi`.
pub fn clamp_i64(v: i64, lo: i64, hi: i64) -> (r: i64)
    ensures
        r == clamp(v as int, lo as int, hi as int),
{
    if v < lo {
        lo
    } else if v > hi {
        hi
    } else {
        v
    }
}

/// `v` brought into the range of `i64`.
pub fn saturate_i128(v: i128) -> (r: i64)
    ensures
        r == saturate(v as int),
{
    if v < i64::MIN as i128 {
        i64::MIN
    } else if v > i64::MAX as i128 {
        i64::MAX
    } else {
        v as i64
    }
}

/// The quotient `n / d` rounded to the nearest integer, halves away from zero.
pub(crate) fn div_round(n: i128, d: i64) -> (q: i128)
    requires
        d > 0,
        -ROUND_LIMIT <= n <= ROUND_LIMIT,
    ensures
        q == round_div(n as int, d as int),
        -ROUND_LIMIT <= q <= ROUND_LIMIT,
{
    let twice: i128 = 2 * (d as i128);
    proof {
        if n >= 0 {
            lemma_div_pos_is_pos(2 * n + d, twice as int);
            lemma_div_is_ordered_by_denominator(2 * n + d, 2, twice as int);
        } else {
            lemma_div_pos_is_pos(2 * (-n) + d, twice as int);
            lemma_div_is_ordered_by_denominator(2 * (-n) + d, 2, twice as int);
        }
        assert(ROUND_LIMIT * d >= ROUND_LIMIT) by (nonlinear_arith)
            requires
                d >= 1,
        ;
        lemma_round_div_bound(n as int, d as int, ROUND_LIMIT as int);
    }
    if n >= 0 {
        (2 * n + d as i128) / twice
    } else {
        -((2 * (-n) + d as i128) / twice)
    }
}

} // verus!

//! Fixed-point arithmetic for the simulation.
//!
//! Lengths are whole numbers of millionths of a world unit, held in `i32`;
//! intermediate results are computed exactly in wider integers and brought
//! back by rounding to the nearest whole number or, at the ends of the
//! range, by saturating.

use vstd::arithmetic::div_mod::{lemma_fundamental_div_mod, lemma_mod_bound};
use vstd::prelude::*;

verus! {

/// One world unit.
pub const UNIT: i32 = 1_000_000;

/// The `i32` nearest to `v`.
pub open spec fn saturate(v: int) -> i32 {
    if v < i32::MIN {
        i32::MIN
    } else if v > i32::MAX {
        i32::MAX
    } else {
        v as i32
    }
}

/// `v` limited to the range from `lo` to `hi`.
pub open spec fn clamp(v: int, lo: int, hi: int) -> int {
    if v < lo {
        lo
    } else if v > hi {
        hi
    } else {
        v
    }
}

/// The whole number nearest to `n / d`, for positive `d`; a tie goes away
/// from zero.
pub open spec fn round_div(n: int, d: int) -> int {
    if n >= 0 {
        (2 * n + d) / (2 * d)
    } else {
        -((2 * (-n) + d) / (2 * d))
    }
}

/// The sign of `v` as a single-precision number has it: zero counts as
/// positive.
pub open spec fn signum(v: int) -> int {
    if v >= 0 {
        1
    } else {
        -1
    }
}

pub fn saturate_i64(v: i64) -> (r: i32)
    ensures
        r == saturate(v as int),
{
    if v < i32::MIN as i64 {
        i32::MIN
    } else if v > i32::MAX as i64 {
        i32::MAX
    } else {
        v as i32
    }
}

pub fn saturate_i128(v: i128) -> (r: i32)
    ensures
        r == saturate(v as int),
{
    if v < i32::MIN as i128 {
        i32::MIN
    } else if v > i32::MAX as i128 {
        i32::MAX
    } else {
        v as i32
    }
}

/// A quotient of a non-negative number brackets it.
proof fn lemma_quotient_brackets(x: int, e: int)
    requires
        0 <= x,
        0 < e,
    ensures
        e * (x / e) <= x < e * (x / e) + e,
        0 <= x / e,
{
    lemma_fundamental_div_mod(x, e);
    lemma_mod_bound(x, e);
    assert(0 <= x / e) by (nonlinear_arith)
        requires
            0 <= x,
            0 < e,
            x == e * (x / e) + (x % e),
            0 <= x % e < e,
    ;
}

/// `round_div(n, d)` is within one half of `n / d`, and has the sign of
/// `n`.
pub proof fn lemma_round_div_is_nearest(n: int, d: int)
    requires
        0 < d,
    ensures
        -d <= 2 * (round_div(n, d) * d - n) <= d,
        n >= 0 ==> round_div(n, d) >= 0,
        n <= 0 ==> round_div(n, d) <= 0,
{
    let m = if n >= 0 {
        n
    } else {
        -n
    };
    let q = (2 * m + d) / (2 * d);
    lemma_quotient_brackets(2 * m + d, 2 * d);
    assert(-d <= 2 * (q * d - m) <= d) by (nonlinear_arith)
        requires
            (2 * d) * q <= 2 * m + d < (2 * d) * q + 2 * d,
    ;
    if n == 0 {
        assert(q == 0) by (nonlinear_arith)
            requires
                0 < d,
                0 <= q,
                (2 * d) * q <= d,
        ;
    }
    if n >= 0 {
        assert(round_div(n, d) == q);
    } else {
        assert(round_div(n, d) == -q);
        assert((-q) * d - n == -(q * d - m)) by (nonlinear_arith)
            requires
                m == -n,
        ;
    }
}

/// A quotient that comes out even is not rounded.
pub proof fn lemma_round_div_exact(k: int, d: int)
    requires
        0 < d,
    ensures
        round_div(k * d, d) == k,
{
    let q = round_div(k * d, d);
    lemma_round_div_is_nearest(k * d, d);
    assert(q == k) by (nonlinear_arith)
        requires
            0 < d,
            -d <= 2 * (q * d - k * d) <= d,
    ;
}

/// Rounding keeps a quotient within the whole-number bounds of the exact
/// one.
pub proof fn lemma_round_div_bounded(n: int, d: int, m: int)
    requires
        0 < d,
        0 <= m,
        -(m * d) <= n <= m * d,
    ensures
        -m <= round_div(n, d) <= m,
{
    let q = round_div(n, d);
    lemma_round_div_is_nearest(n, d);
    assert(-m <= q <= m) by (nonlinear_arith)
        requires
            0 < d,
            0 <= m,
            -(m * d) <= n <= m * d,
            -d <= 2 * (q * d - n) <= d,
    ;
}

/// The whole number nearest to `n / d`.
pub fn div_round(n: i128, d: i128) -> (r: i128)
    requires
        0 < d <= 0x1000_0000_0000_0000_0000_0000_0000_0000,
        -0x1000_0000_0000_0000_0000_0000_0000_0000 <= n
            <= 0x1000_0000_0000_0000_0000_0000_0000_0000,
    ensures
        r == round_div(n as int, d as int),
{
    proof {
        lemma_round_div_is_nearest(n as int, d as int);
        let m = if n >= 0 {
            n as int
        } else {
            -(n as int)
        };
        lemma_quotient_brackets(2 * m + d, 2 * d);
        assert((2 * m + d) / (2 * d) <= 2 * m + d) by (nonlinear_arith)
            requires
                0 < d,
                0 <= m,
                (2 * d) * ((2 * m + d) / (2 * d)) <= 2 * m + d,
                0 <= (2 * m + d) / (2 * d),
        ;
    }
    if n >= 0 {
        (2 * n + d) / (2 * d)
    } else {
        -((2 * (-n) + d) / (2 * d))
    }
}

} // verus!

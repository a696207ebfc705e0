//! Fixed-point scalar arithmetic.
//!
//! The renderer's geometry and colors are carried as `i64` fixed-point
//! numbers: a value `v` stands for the real number `v / SCALE`. All
//! operations are total — results saturate at `FX_MAX` in magnitude and
//! division by zero yields zero (degenerate geometry is a valid "no work"
//! outcome, never a failure) — and each one is pinned to an exact integer
//! formula by its contract.

use vstd::prelude::*;
use vstd::arithmetic::div_mod::{
    lemma_div_is_ordered, lemma_div_multiples_vanish, lemma_div_pos_is_pos,
};
use vstd::arithmetic::mul::{lemma_mul_inequality, lemma_mul_nonnegative};

verus! {

/// Fixed-point scale: an `i64` fixed-point value `v` stands for `v / SCALE`.
pub const SCALE: i64 = 65536;

/// Largest magnitude a fixed-point value may take; arithmetic saturates here
/// instead of wrapping.
pub const FX_MAX: i64 = 0x7fff_ffff_ffff_ffff;

/// Magnitude of an integer.
pub open spec fn absi(x: int) -> int {
    if x < 0 {
        -x
    } else {
        x
    }
}

/// Clamp an integer into the representable fixed-point range.
pub open spec fn sat(x: int) -> int {
    if x > FX_MAX {
        FX_MAX as int
    } else if x < -(FX_MAX as int) {
        -(FX_MAX as int)
    } else {
        x
    }
}

/// Saturating fixed-point sum.
pub open spec fn fx_add_s(a: int, b: int) -> int {
    sat(a + b)
}

/// Saturating fixed-point difference.
pub open spec fn fx_sub_s(a: int, b: int) -> int {
    sat(a - b)
}

/// Saturating fixed-point product: magnitudes are multiplied, scaled down by
/// `SCALE` rounding toward zero, and the sign is reattached.
pub open spec fn fx_mul_s(a: int, b: int) -> int {
    let m = (absi(a) * absi(b)) / (SCALE as int);
    if (a < 0) != (b < 0) {
        sat(-m)
    } else {
        sat(m)
    }
}

/// Saturating fixed-point quotient, rounding toward zero; a zero divisor
/// yields zero.
pub open spec fn fx_div_s(a: int, b: int) -> int {
    if b == 0 {
        0
    } else {
        let m = (absi(a) * (SCALE as int)) / absi(b);
        if (a < 0) != (b < 0) {
            sat(-m)
        } else {
            sat(m)
        }
    }
}

/// Floor of the square root of a non-negative integer.
pub open spec fn sqrt_floor(n: int) -> int {
    choose|r: int| 0 <= r && #[trigger] (r * r) <= n && n < (r + 1) * (r + 1)
}

/// Fixed-point square root: for `x > 0` the result is the fixed-point floor
/// of the square root of the number `x` stands for; `x <= 0` yields zero.
pub open spec fn fx_sqrt_s(x: int) -> int {
    if x <= 0 {
        0
    } else {
        sqrt_floor(x * (SCALE as int))
    }
}

/// Two integer square-root floors of the same number agree.
pub proof fn lemma_sqrt_floor_unique(n: int, r1: int, r2: int)
    by (nonlinear_arith)
    requires
        0 <= r1,
        r1 * r1 <= n,
        n < (r1 + 1) * (r1 + 1),
        0 <= r2,
        r2 * r2 <= n,
        n < (r2 + 1) * (r2 + 1),
    ensures
        r1 == r2,
{
}

pub fn fx_add(a: i64, b: i64) -> (r: i64)
    ensures
        r as int == fx_add_s(a as int, b as int),
{
    let s: i128 = a as i128 + b as i128;
    if s > FX_MAX as i128 {
        FX_MAX
    } else if s < -(FX_MAX as i128) {
        -FX_MAX
    } else {
        s as i64
    }
}

pub fn fx_sub(a: i64, b: i64) -> (r: i64)
    ensures
        r as int == fx_sub_s(a as int, b as int),
{
    let s: i128 = a as i128 - b as i128;
    if s > FX_MAX as i128 {
        FX_MAX
    } else if s < -(FX_MAX as i128) {
        -FX_MAX
    } else {
        s as i64
    }
}

pub fn fx_mul(a: i64, b: i64) -> (r: i64)
    ensures
        r as int == fx_mul_s(a as int, b as int),
{
    let neg = (a < 0) != (b < 0);
    let aa: u128 = if a < 0 {
        (-(a as i128)) as u128
    } else {
        a as u128
    };
    let bb: u128 = if b < 0 {
        (-(b as i128)) as u128
    } else {
        b as u128
    };
    assert(aa as int == absi(a as int));
    assert(bb as int == absi(b as int));
    assert((aa as int) * (bb as int) <= 0x4000_0000_0000_0000_0000_0000_0000_0000int)
        by (nonlinear_arith)
        requires
            aa as int <= 0x8000_0000_0000_0000,
            bb as int <= 0x8000_0000_0000_0000,
    ;
    let m: u128 = (aa * bb) / (SCALE as u128);
    let mag: i64 = if m > FX_MAX as u128 {
        FX_MAX
    } else {
        m as i64
    };
    if neg {
        -mag
    } else {
        mag
    }
}

pub fn fx_div(a: i64, b: i64) -> (r: i64)
    ensures
        r as int == fx_div_s(a as int, b as int),
{
    if b == 0 {
        return 0;
    }
    let neg = (a < 0) != (b < 0);
    let aa: u128 = if a < 0 {
        (-(a as i128)) as u128
    } else {
        a as u128
    };
    let bb: u128 = if b < 0 {
        (-(b as i128)) as u128
    } else {
        b as u128
    };
    assert(aa as int == absi(a as int));
    assert(bb as int == absi(b as int));
    assert((aa as int) * (SCALE as int) <= 0x8_0000_0000_0000_0000_0000int)
        by (nonlinear_arith)
        requires
            aa as int <= 0x8000_0000_0000_0000,
    ;
    let m: u128 = (aa * (SCALE as u128)) / bb;
    let mag: i64 = if m > FX_MAX as u128 {
        FX_MAX
    } else {
        m as i64
    };
    if neg {
        -mag
    } else {
        mag
    }
}

pub fn fx_sqrt(x: i64) -> (r: i64)
    ensures
        r as int == fx_sqrt_s(x as int),
{
    if x <= 0 {
        return 0;
    }
    assert((x as int) * (SCALE as int) <= 0x8_0000_0000_0000_0000_0000int)
        by (nonlinear_arith)
        requires
            0 < x as int <= 0x7fff_ffff_ffff_ffff,
    ;
    let n: u128 = (x as u128) * (SCALE as u128);
    let mut lo: u128 = 0;
    let mut hi: u128 = 0x100_0000_0000;
    assert((n as int) < (hi as int) * (hi as int)) by (nonlinear_arith)
        requires
            n as int == (x as int) * (SCALE as int),
            0 < x as int <= FX_MAX as int,
            hi as int == 0x100_0000_0000,
    ;
    while lo + 1 < hi
        invariant
            lo < hi,
            hi <= 0x100_0000_0000,
            (lo as int) * (lo as int) <= n as int,
            (n as int) < (hi as int) * (hi as int),
        decreases hi - lo,
    {
        let mid: u128 = lo + (hi - lo) / 2;
        assert((mid as int) * (mid as int) <= 0x1_0000_0000_0000_0000_0000int)
            by (nonlinear_arith)
            requires
                mid as int <= 0x100_0000_0000,
        ;
        if mid * mid <= n {
            lo = mid;
        } else {
            hi = mid;
        }
    }
    proof {
        let w = lo as int;
        assert(w * w <= n as int);
        assert(lo + 1 == hi);
        assert((n as int) < (w + 1) * (w + 1));
        assert(exists|r: int| 0 <= r && #[trigger] (r * r) <= n as int && (n as int) < (r + 1) * (r + 1));
        lemma_sqrt_floor_unique(n as int, sqrt_floor(n as int), w);
    }
    lo as i64
}

/// The scaled-down product of non-negative factors is non-negative, and a
/// factor at most `SCALE` (one, in fixed point) cannot grow the other factor.
pub proof fn lemma_fx_mul_unit(a: int, b: int)
    requires
        0 <= a <= FX_MAX as int,
        0 <= b <= SCALE as int,
    ensures
        0 <= fx_mul_s(a, b),
        fx_mul_s(a, b) <= a,
{
    let s = SCALE as int;
    lemma_mul_nonnegative(a, b);
    lemma_div_pos_is_pos(a * b, s);
    lemma_mul_inequality(b, s, a);
    assert(a * b == b * a) by (nonlinear_arith);
    assert(s * a == a * s) by (nonlinear_arith);
    lemma_div_is_ordered(a * b, a * s, s);
    lemma_div_multiples_vanish(a, s);
    assert(s * a == a * s) by (nonlinear_arith);
}

} // verus!

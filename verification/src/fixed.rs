//! Saturating fixed-point arithmetic on `i64` values scaled by [`FX_ONE`].
//!
//! A coordinate value `v` stands for the real number `v / FX_ONE`, so the
//! unit interval `[0.0, 1.0]` is `[0, FX_ONE]`.  Products and quotients are
//! computed exactly in 128-bit intermediates, rounded toward zero, and
//! clamped into the `i64` range, so every operation is total: no operation
//! overflows or panics, whatever its inputs.

use vstd::prelude::*;

verus! {

/// The fixed-point representation of the real number one.
pub const FX_ONE: i64 = 1_000_000_000;

/// Clamp a mathematical integer into the `i64` range.
pub open spec fn clip(v: int) -> int {
    if v < i64::MIN {
        i64::MIN as int
    } else if v > i64::MAX {
        i64::MAX as int
    } else {
        v
    }
}

/// Quotient of `a / b` rounded toward zero, the rounding executable
/// division uses; Verus's own `/` on `int` is Euclidean, so the signs are
/// normalized first and the magnitude is divided.
pub open spec fn trunc_div(a: int, b: int) -> int
    recommends
        b != 0,
{
    let x = if b < 0 {
        -a
    } else {
        a
    };
    let y = if b < 0 {
        -b
    } else {
        b
    };
    if x >= 0 {
        x / y
    } else {
        -((-x) / y)
    }
}

/// Saturating fixed-point addition.
pub open spec fn fx_add_s(a: int, b: int) -> int {
    clip(a + b)
}

/// Saturating fixed-point subtraction.
pub open spec fn fx_sub_s(a: int, b: int) -> int {
    clip(a - b)
}

/// Saturating fixed-point multiplication: `a * b` rescaled by `FX_ONE`.
pub open spec fn fx_mul_s(a: int, b: int) -> int {
    clip(trunc_div(a * b, FX_ONE as int))
}

/// Saturating fixed-point division: `a / b` rescaled by `FX_ONE`.
pub open spec fn fx_div_s(a: int, b: int) -> int
    recommends
        b != 0,
{
    clip(trunc_div(a * (FX_ONE as int), b))
}

/// Saturating product of a small integer scale factor and a fixed-point
/// value; the result keeps the scale of `v`.
pub open spec fn fx_scale_s(k: int, v: int) -> int {
    clip(k * v)
}

/// Truncating division is monotone in the dividend when the divisor is
/// positive.
pub proof fn lemma_trunc_div_ordered(a: int, b: int, d: int)
    requires
        a <= b,
        d > 0,
    ensures
        trunc_div(a, d) <= trunc_div(b, d),
{
    if a >= 0 {
        vstd::arithmetic::div_mod::lemma_div_is_ordered(a, b, d);
    } else if b >= 0 {
        vstd::arithmetic::div_mod::lemma_div_pos_is_pos(-a, d);
        vstd::arithmetic::div_mod::lemma_div_pos_is_pos(b, d);
    } else {
        vstd::arithmetic::div_mod::lemma_div_is_ordered(-b, -a, d);
    }
}

/// Clamp a 128-bit intermediate into the `i64` range.
fn sat64(p: i128) -> (r: i64)
    ensures
        r == clip(p as int),
{
    if p > i64::MAX as i128 {
        i64::MAX
    } else if p < i64::MIN as i128 {
        i64::MIN
    } else {
        p as i64
    }
}

pub fn fx_add(a: i64, b: i64) -> (r: i64)
    ensures
        r == fx_add_s(a as int, b as int),
{
    sat64(a as i128 + b as i128)
}

pub fn fx_sub(a: i64, b: i64) -> (r: i64)
    ensures
        r == fx_sub_s(a as int, b as int),
{
    sat64(a as i128 - b as i128)
}

pub fn fx_mul(a: i64, b: i64) -> (r: i64)
    ensures
        r == fx_mul_s(a as int, b as int),
{
    proof {
        assert((a as int) * (b as int) <= 0x4000_0000_0000_0000_0000_0000_0000_0000int
            && (a as int) * (b as int) >= -0x4000_0000_0000_0000_0000_0000_0000_0000int)
            by (nonlinear_arith)
            requires
                -0x8000_0000_0000_0000int <= a as int <= 0x7fff_ffff_ffff_ffffint,
                -0x8000_0000_0000_0000int <= b as int <= 0x7fff_ffff_ffff_ffffint,
        ;
    }
    let p: i128 = (a as i128) * (b as i128);
    sat64(p / (FX_ONE as i128))
}

pub fn fx_div(a: i64, b: i64) -> (r: i64)
    requires
        b != 0,
    ensures
        r == fx_div_s(a as int, b as int),
{
    proof {
        assert((a as int) * (FX_ONE as int) <= 0x4000_0000_0000_0000_0000_0000_0000_0000int
            && (a as int) * (FX_ONE as int) >= -0x4000_0000_0000_0000_0000_0000_0000_0000int)
            by (nonlinear_arith)
            requires
                -0x8000_0000_0000_0000int <= a as int <= 0x7fff_ffff_ffff_ffffint,
        ;
    }
    let p: i128 = (a as i128) * (FX_ONE as i128);
    let d: i128 = b as i128;
    let pp: i128 = if d < 0 {
        -p
    } else {
        p
    };
    let dd: i128 = if d < 0 {
        -d
    } else {
        d
    };
    proof {
        if pp >= 0 {
            vstd::arithmetic::div_mod::lemma_div_pos_is_pos(pp as int, dd as int);
            vstd::arithmetic::div_mod::lemma_div_nonincreasing(pp as int, dd as int);
        } else {
            vstd::arithmetic::div_mod::lemma_div_pos_is_pos(-(pp as int), dd as int);
            vstd::arithmetic::div_mod::lemma_div_nonincreasing(-(pp as int), dd as int);
        }
    }
    sat64(pp / dd)
}

pub fn fx_scale(k: i64, v: i64) -> (r: i64)
    ensures
        r == fx_scale_s(k as int, v as int),
{
    proof {
        assert((k as int) * (v as int) <= 0x4000_0000_0000_0000_0000_0000_0000_0000int
            && (k as int) * (v as int) >= -0x4000_0000_0000_0000_0000_0000_0000_0000int)
            by (nonlinear_arith)
            requires
                -0x8000_0000_0000_0000int <= k as int <= 0x7fff_ffff_ffff_ffffint,
                -0x8000_0000_0000_0000int <= v as int <= 0x7fff_ffff_ffff_ffffint,
        ;
    }
    let p: i128 = (k as i128) * (v as i128);
    sat64(p)
}

} // verus!

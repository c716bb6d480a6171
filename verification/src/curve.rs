//! Cubic Bézier coordinate polynomial and its derivative.
//!
//! One coordinate of the curve (either axis) is determined by the pair of
//! interior control values `(a1, a2)` for that axis; the end points are
//! pinned at `0` and `1`.  In Bernstein-derived polynomial form the
//! coordinate at parameter `t` is `((A*t + B)*t + C)*t` with
//! `A = 1 - 3*a2 + 3*a1`, `B = 3*a2 - 6*a1` and `C = 3*a1`.

use vstd::prelude::*;

use crate::fixed::fx_add;
use crate::fixed::fx_add_s;
use crate::fixed::fx_mul;
use crate::fixed::fx_mul_s;
use crate::fixed::fx_scale;
use crate::fixed::fx_scale_s;
use crate::fixed::fx_sub;
use crate::fixed::fx_sub_s;
use crate::fixed::FX_ONE;

verus! {

/// Number of entries in the precomputed sample table.
pub const SPLINE_TABLE_SIZE: usize = 11;

/// Parameter distance between adjacent sample-table entries: one tenth.
pub const SAMPLE_STEP: i64 = 100_000_000;

/// Polynomial coefficient `A = 1 - 3*a2 + 3*a1`.
pub open spec fn coef_a_s(a1: int, a2: int) -> int {
    fx_add_s(fx_sub_s(FX_ONE as int, fx_scale_s(3, a2)), fx_scale_s(3, a1))
}

/// Polynomial coefficient `B = 3*a2 - 6*a1`.
pub open spec fn coef_b_s(a1: int, a2: int) -> int {
    fx_sub_s(fx_scale_s(3, a2), fx_scale_s(6, a1))
}

/// Polynomial coefficient `C = 3*a1`.
pub open spec fn coef_c_s(a1: int) -> int {
    fx_scale_s(3, a1)
}

/// Coordinate value at parameter `t`: `((A*t + B)*t + C)*t` in Horner form.
pub open spec fn calc_bezier_s(t: int, a1: int, a2: int) -> int {
    fx_mul_s(
        fx_add_s(fx_mul_s(fx_add_s(fx_mul_s(coef_a_s(a1, a2), t), coef_b_s(a1, a2)), t), coef_c_s(a1)),
        t,
    )
}

/// Coordinate derivative at parameter `t`: `3*A*t^2 + 2*B*t + C`.
pub open spec fn get_slope_s(t: int, a1: int, a2: int) -> int {
    fx_add_s(
        fx_add_s(
            fx_mul_s(fx_mul_s(fx_scale_s(3, coef_a_s(a1, a2)), t), t),
            fx_mul_s(fx_scale_s(2, coef_b_s(a1, a2)), t),
        ),
        coef_c_s(a1),
    )
}

/// The `x(t)` value of the sample-table entry at index `i`.
pub open spec fn sample_s(i: int, x1: int, x2: int) -> int {
    calc_bezier_s(i * (SAMPLE_STEP as int), x1, x2)
}

fn coef_a(a1: i64, a2: i64) -> (r: i64)
    ensures
        r == coef_a_s(a1 as int, a2 as int),
{
    fx_add(fx_sub(FX_ONE, fx_scale(3, a2)), fx_scale(3, a1))
}

fn coef_b(a1: i64, a2: i64) -> (r: i64)
    ensures
        r == coef_b_s(a1 as int, a2 as int),
{
    fx_sub(fx_scale(3, a2), fx_scale(6, a1))
}

fn coef_c(a1: i64) -> (r: i64)
    ensures
        r == coef_c_s(a1 as int),
{
    fx_scale(3, a1)
}

/// Evaluate the coordinate polynomial at `t` for control pair `(a1, a2)`.
///
/// `t` is not restricted to `[0, FX_ONE]`: the solver may probe slightly
/// outside the unit interval, and the result is then still a well-defined
/// saturated fixed-point value.
pub fn calc_bezier(t: i64, a1: i64, a2: i64) -> (r: i64)
    ensures
        r == calc_bezier_s(t as int, a1 as int, a2 as int),
{
    let acc = fx_mul(coef_a(a1, a2), t);
    let acc = fx_mul(fx_add(acc, coef_b(a1, a2)), t);
    fx_mul(fx_add(acc, coef_c(a1)), t)
}

/// Evaluate the coordinate derivative at `t` for control pair `(a1, a2)`.
pub fn get_slope(t: i64, a1: i64, a2: i64) -> (r: i64)
    ensures
        r == get_slope_s(t as int, a1 as int, a2 as int),
{
    let quad = fx_mul(fx_mul(fx_scale(3, coef_a(a1, a2)), t), t);
    let lin = fx_mul(fx_scale(2, coef_b(a1, a2)), t);
    fx_add(fx_add(quad, lin), coef_c(a1))
}

/// Build the table of `x(t)` at `t = 0, 1/10, ..., 1` for the x-axis
/// control pair `(x1, x2)`.
pub fn calc_sample_values(x1: i64, x2: i64) -> (v: Vec<i64>)
    ensures
        v@.len() == SPLINE_TABLE_SIZE,
        forall|i: int| 0 <= i < SPLINE_TABLE_SIZE ==> v@[i] == sample_s(i, x1 as int, x2 as int),
{
    let mut v: Vec<i64> = Vec::new();
    let mut i: usize = 0;
    while i < SPLINE_TABLE_SIZE
        invariant
            i <= SPLINE_TABLE_SIZE,
            v@.len() == i,
            forall|j: int| 0 <= j < i ==> v@[j] == sample_s(j, x1 as int, x2 as int),
        decreases SPLINE_TABLE_SIZE - i,
    {
        let t: i64 = (i as i64) * SAMPLE_STEP;
        v.push(calc_bezier(t, x1, x2));
        i += 1;
    }
    v
}

} // verus!

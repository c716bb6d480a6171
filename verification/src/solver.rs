//! Inversion of the curve's `x(t)`: find `t` with `x(t) = x`.
//!
//! The solver brackets `t` with the precomputed sample table, builds a
//! linear-interpolation guess inside the bracket, and then refines the
//! guess: Newton–Raphson where the local slope is steep enough, binary
//! subdivision where it is shallow, and no refinement at all where it is
//! exactly zero.

use vstd::prelude::*;

use crate::curve::calc_bezier;
use crate::curve::calc_bezier_s;
use crate::curve::calc_sample_values;
use crate::curve::get_slope;
use crate::curve::get_slope_s;
use crate::curve::sample_s;
use crate::curve::SAMPLE_STEP;
use crate::curve::SPLINE_TABLE_SIZE;
use crate::fixed::fx_add;
use crate::fixed::fx_add_s;
use crate::fixed::fx_div;
use crate::fixed::fx_div_s;
use crate::fixed::fx_mul;
use crate::fixed::fx_mul_s;
use crate::fixed::fx_sub;
use crate::fixed::fx_sub_s;
use crate::fixed::lemma_trunc_div_ordered;
use crate::fixed::FX_ONE;

verus! {

/// Fixed number of Newton–Raphson steps.
pub const NEWTON_ITERATIONS: usize = 4;

/// Slope threshold below which Newton–Raphson is not trusted: `0.001`.
pub const NEWTON_MIN_SLOPE: i64 = 1_000_000;

/// Early-exit tolerance of binary subdivision: `1e-7`.
pub const SUBDIVISION_PRECISION: i64 = 100;

/// Iteration cap of binary subdivision.
pub const SUBDIVISION_MAX_ITERATIONS: usize = 10;

/// The value of `t` after `n` Newton–Raphson steps from `t`, each step
/// `t - (x(t) - x) / x'(t)`; a step with an exactly zero slope keeps `t`
/// as it is, and so do all steps after it.
pub open spec fn newton_s(x: int, t: int, x1: int, x2: int, n: nat) -> int
    decreases n,
{
    if n == 0 {
        t
    } else {
        let slope = get_slope_s(t, x1, x2);
        if slope == 0 {
            t
        } else {
            let current_x = fx_sub_s(calc_bezier_s(t, x1, x2), x);
            newton_s(x, fx_sub_s(t, fx_div_s(current_x, slope)), x1, x2, (n - 1) as nat)
        }
    }
}

/// The midpoint `t` at which bisection of `[lo, hi]` stops: it stops when
/// `x(t)` is within [`SUBDIVISION_PRECISION`] of `x` or when the fuel is
/// spent, and otherwise recurses into the half that still contains the
/// target.
pub open spec fn subdivide_s(x: int, lo: int, hi: int, x1: int, x2: int, fuel: nat) -> int
    decreases fuel,
{
    let t = lo + (hi - lo) / 2;
    let current_x = fx_sub_s(calc_bezier_s(t, x1, x2), x);
    if (-(SUBDIVISION_PRECISION as int) < current_x && current_x < SUBDIVISION_PRECISION)
        || fuel <= 1 {
        t
    } else if current_x > 0 {
        subdivide_s(x, lo, t, x1, x2, (fuel - 1) as nat)
    } else {
        subdivide_s(x, t, hi, x1, x2, (fuel - 1) as nat)
    }
}

/// Index of the first sample, scanning from `i`, whose value exceeds `x`,
/// capped at the last sample; the bracketing interval then ends there.
pub open spec fn bracket_sample_s(x: int, x1: int, x2: int, i: nat) -> nat
    decreases SPLINE_TABLE_SIZE - 1 - i,
{
    if i >= SPLINE_TABLE_SIZE - 1 {
        (SPLINE_TABLE_SIZE - 1) as nat
    } else if sample_s(i as int, x1, x2) <= x {
        bracket_sample_s(x, x1, x2, i + 1)
    } else {
        i
    }
}

/// Linear-interpolation guess for `t` inside a bracketing interval that
/// starts at parameter `interval_start` and spans one [`SAMPLE_STEP`].
/// A zero-width interval (`sample_hi == sample_lo`) would leave the
/// interpolation weight undefined; the guess is then `interval_start`
/// itself.
pub open spec fn interpolate_guess_s(
    x: int,
    sample_lo: int,
    sample_hi: int,
    interval_start: int,
) -> int {
    if sample_hi == sample_lo {
        interval_start
    } else {
        fx_add_s(
            interval_start,
            fx_mul_s(
                fx_div_s(fx_sub_s(x, sample_lo), fx_sub_s(sample_hi, sample_lo)),
                SAMPLE_STEP as int,
            ),
        )
    }
}

/// The `t` the solver returns for a target `x`: the interpolated guess,
/// refined by Newton–Raphson when the slope at the guess reaches
/// [`NEWTON_MIN_SLOPE`], returned unrefined when that slope is exactly
/// zero, and refined by binary subdivision otherwise.
pub open spec fn t_for_x_s(x: int, x1: int, x2: int) -> int {
    let bracket_end = bracket_sample_s(x, x1, x2, 1);
    let idx = bracket_end - 1;
    let interval_start = idx * (SAMPLE_STEP as int);
    let guess = interpolate_guess_s(
        x,
        sample_s(idx, x1, x2),
        sample_s(idx + 1, x1, x2),
        interval_start,
    );
    let initial_slope = get_slope_s(guess, x1, x2);
    if initial_slope >= NEWTON_MIN_SLOPE {
        newton_s(x, guess, x1, x2, NEWTON_ITERATIONS as nat)
    } else if initial_slope == 0 {
        guess
    } else {
        subdivide_s(
            x,
            interval_start,
            interval_start + SAMPLE_STEP,
            x1,
            x2,
            SUBDIVISION_MAX_ITERATIONS as nat,
        )
    }
}

/// The bracketing scan lands between its starting index and the last
/// sample.
pub proof fn lemma_bracket_in_range(x: int, x1: int, x2: int, i: nat)
    requires
        i <= SPLINE_TABLE_SIZE - 1,
    ensures
        i <= bracket_sample_s(x, x1, x2, i) <= SPLINE_TABLE_SIZE - 1,
    decreases SPLINE_TABLE_SIZE - 1 - i,
{
    if i < SPLINE_TABLE_SIZE - 1 && sample_s(i as int, x1, x2) <= x {
        lemma_bracket_in_range(x, x1, x2, i + 1);
    }
}

/// Monotone bracketing: a larger target `x` never lands in an earlier
/// bracketing interval, whatever the sample values.  This is the
/// table-lookup piece of the solver's monotonicity in `x`; it says
/// nothing about the refined `t` inside an interval.
pub proof fn lemma_bracket_monotone(a: int, b: int, x1: int, x2: int, i: nat)
    requires
        a <= b,
        i <= SPLINE_TABLE_SIZE - 1,
    ensures
        bracket_sample_s(a, x1, x2, i) <= bracket_sample_s(b, x1, x2, i),
    decreases SPLINE_TABLE_SIZE - 1 - i,
{
    if i < SPLINE_TABLE_SIZE - 1 {
        if sample_s(i as int, x1, x2) <= a {
            lemma_bracket_monotone(a, b, x1, x2, i + 1);
        } else if sample_s(i as int, x1, x2) <= b {
            lemma_bracket_in_range(b, x1, x2, i + 1);
        }
    }
}

/// Binary subdivision never leaves its bracketing interval.
pub proof fn lemma_subdivide_in_interval(x: int, lo: int, hi: int, x1: int, x2: int, fuel: nat)
    requires
        lo <= hi,
    ensures
        lo <= subdivide_s(x, lo, hi, x1, x2, fuel) <= hi,
    decreases fuel,
{
    vstd::arithmetic::div_mod::lemma_div_pos_is_pos(hi - lo, 2);
    vstd::arithmetic::div_mod::lemma_div_nonincreasing(hi - lo, 2);
    let t = lo + (hi - lo) / 2;
    let current_x = fx_sub_s(calc_bezier_s(t, x1, x2), x);
    if !((-(SUBDIVISION_PRECISION as int) < current_x && current_x < SUBDIVISION_PRECISION)
        || fuel <= 1) {
        if current_x > 0 {
            lemma_subdivide_in_interval(x, lo, t, x1, x2, (fuel - 1) as nat);
        } else {
            lemma_subdivide_in_interval(x, t, hi, x1, x2, (fuel - 1) as nat);
        }
    }
}

/// Within a bracketing interval of positive width, the interpolated guess
/// is non-decreasing in the target `x`.  Together with
/// [`lemma_bracket_monotone`] this covers the monotonicity in `x` of the
/// solver's starting point; the Newton and subdivision refinements that
/// follow the guess are not covered.
pub proof fn lemma_guess_monotone(
    a: int,
    b: int,
    sample_lo: int,
    sample_hi: int,
    interval_start: int,
)
    requires
        a <= b,
        sample_lo < sample_hi,
    ensures
        interpolate_guess_s(a, sample_lo, sample_hi, interval_start) <= interpolate_guess_s(
            b,
            sample_lo,
            sample_hi,
            interval_start,
        ),
{
    let width = fx_sub_s(sample_hi, sample_lo);
    let da = fx_sub_s(a, sample_lo);
    let db = fx_sub_s(b, sample_lo);
    assert(da * (FX_ONE as int) <= db * (FX_ONE as int)) by (nonlinear_arith)
        requires
            da <= db,
            FX_ONE as int > 0,
    ;
    lemma_trunc_div_ordered(
        da * (FX_ONE as int),
        db * (FX_ONE as int),
        width,
    );
    let qa = fx_div_s(da, width);
    let qb = fx_div_s(db, width);
    assert(qa * (SAMPLE_STEP as int) <= qb * (SAMPLE_STEP as int)) by (nonlinear_arith)
        requires
            qa <= qb,
            SAMPLE_STEP as int > 0,
    ;
    lemma_trunc_div_ordered(
        qa * (SAMPLE_STEP as int),
        qb * (SAMPLE_STEP as int),
        FX_ONE as int,
    );
}

/// Refine a guess for `t` with [`NEWTON_ITERATIONS`] Newton–Raphson steps.
pub fn newton_raphson_iterate(x: i64, guess_t: i64, x1: i64, x2: i64) -> (t: i64)
    ensures
        t == newton_s(x as int, guess_t as int, x1 as int, x2 as int, NEWTON_ITERATIONS as nat),
{
    let mut t = guess_t;
    let mut i: usize = 0;
    while i < NEWTON_ITERATIONS
        invariant
            i <= NEWTON_ITERATIONS,
            newton_s(x as int, guess_t as int, x1 as int, x2 as int, NEWTON_ITERATIONS as nat)
                == newton_s(x as int, t as int, x1 as int, x2 as int, (NEWTON_ITERATIONS - i) as nat),
        decreases NEWTON_ITERATIONS - i,
    {
        let current_slope = get_slope(t, x1, x2);
        if current_slope == 0 {
            return t;
        }
        let current_x = fx_sub(calc_bezier(t, x1, x2), x);
        t = fx_sub(t, fx_div(current_x, current_slope));
        i += 1;
    }
    t
}

/// Refine `t` by bisecting `[lo, hi]` against the target `x`.
pub fn binary_subdivide(x: i64, lo: i64, hi: i64, x1: i64, x2: i64) -> (t: i64)
    requires
        0 <= lo <= hi,
    ensures
        t == subdivide_s(
            x as int,
            lo as int,
            hi as int,
            x1 as int,
            x2 as int,
            SUBDIVISION_MAX_ITERATIONS as nat,
        ),
        lo <= t <= hi,
{
    proof {
        lemma_subdivide_in_interval(
            x as int,
            lo as int,
            hi as int,
            x1 as int,
            x2 as int,
            SUBDIVISION_MAX_ITERATIONS as nat,
        );
    }
    let mut m_lo = lo;
    let mut m_hi = hi;
    let mut current_t: i64 = 0;
    let mut i: usize = 0;
    while i < SUBDIVISION_MAX_ITERATIONS
        invariant
            i <= SUBDIVISION_MAX_ITERATIONS,
            0 <= m_lo <= m_hi,
            lo <= subdivide_s(
                x as int,
                lo as int,
                hi as int,
                x1 as int,
                x2 as int,
                SUBDIVISION_MAX_ITERATIONS as nat,
            ) <= hi,
            i < SUBDIVISION_MAX_ITERATIONS ==> subdivide_s(
                x as int,
                lo as int,
                hi as int,
                x1 as int,
                x2 as int,
                SUBDIVISION_MAX_ITERATIONS as nat,
            ) == subdivide_s(
                x as int,
                m_lo as int,
                m_hi as int,
                x1 as int,
                x2 as int,
                (SUBDIVISION_MAX_ITERATIONS - i) as nat,
            ),
            i == SUBDIVISION_MAX_ITERATIONS ==> subdivide_s(
                x as int,
                lo as int,
                hi as int,
                x1 as int,
                x2 as int,
                SUBDIVISION_MAX_ITERATIONS as nat,
            ) == current_t,
        decreases SUBDIVISION_MAX_ITERATIONS - i,
    {
        current_t = m_lo + (m_hi - m_lo) / 2;
        let current_x = fx_sub(calc_bezier(current_t, x1, x2), x);
        if current_x > 0 {
            m_hi = current_t;
        } else {
            m_lo = current_t;
        }
        if -SUBDIVISION_PRECISION < current_x && current_x < SUBDIVISION_PRECISION {
            return current_t;
        }
        i += 1;
    }
    current_t
}

/// Guess `t` inside the bracketing interval by linear interpolation of the
/// target between the interval's two sample values; a zero-width interval
/// falls back to the interval's start.
pub fn interpolate_guess(x: i64, sample_lo: i64, sample_hi: i64, interval_start: i64) -> (g: i64)
    ensures
        g == interpolate_guess_s(x as int, sample_lo as int, sample_hi as int, interval_start as int),
{
    if sample_hi == sample_lo {
        interval_start
    } else {
        let dist = fx_div(fx_sub(x, sample_lo), fx_sub(sample_hi, sample_lo));
        fx_add(interval_start, fx_mul(dist, SAMPLE_STEP))
    }
}

/// Solve `x(t) = x` for `t` on the curve with x-axis controls `(x1, x2)`.
pub fn get_t_for_x(x: i64, x1: i64, x2: i64) -> (t: i64)
    ensures
        t == t_for_x_s(x as int, x1 as int, x2 as int),
{
    let sample_values = calc_sample_values(x1, x2);
    let last_sample: usize = SPLINE_TABLE_SIZE - 1;
    let mut interval_start: i64 = 0;
    let mut current_sample: usize = 1;
    while current_sample != last_sample && sample_values[current_sample] <= x
        invariant
            1 <= current_sample <= SPLINE_TABLE_SIZE - 1,
            last_sample == SPLINE_TABLE_SIZE - 1,
            interval_start == (current_sample - 1) * (SAMPLE_STEP as int),
            sample_values@.len() == SPLINE_TABLE_SIZE,
            forall|j: int|
                0 <= j < SPLINE_TABLE_SIZE ==> sample_values@[j] == sample_s(j, x1 as int, x2 as int),
            bracket_sample_s(x as int, x1 as int, x2 as int, 1)
                == bracket_sample_s(x as int, x1 as int, x2 as int, current_sample as nat),
        decreases SPLINE_TABLE_SIZE - current_sample,
    {
        interval_start += SAMPLE_STEP;
        current_sample += 1;
    }
    current_sample -= 1;

    let sample_lo = sample_values[current_sample];
    let sample_hi = sample_values[current_sample + 1];
    let guess_for_t = interpolate_guess(x, sample_lo, sample_hi, interval_start);
    let initial_slope = get_slope(guess_for_t, x1, x2);
    if initial_slope >= NEWTON_MIN_SLOPE {
        newton_raphson_iterate(x, guess_for_t, x1, x2)
    } else if initial_slope == 0 {
        guess_for_t
    } else {
        binary_subdivide(x, interval_start, interval_start + SAMPLE_STEP, x1, x2)
    }
}

} // verus!

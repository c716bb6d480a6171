//! The easing-function factory and the easing function itself.
//!
//! [`bezier_easing`] validates the control points and returns a
//! [`CubicBezierEasing`], an immutable value holding the four validated
//! coordinates; its [`CubicBezierEasing::ease`] method maps a progress
//! fraction `x` to the eased output `y` by solving `x(t) = x` and
//! evaluating `y(t)`.

use vstd::prelude::*;

use crate::curve::calc_bezier;
use crate::curve::calc_bezier_s;
use crate::fixed::FX_ONE;
use crate::solver::get_t_for_x;
use crate::solver::t_for_x_s;

verus! {

/// Error of the factory: an x-axis control value lies outside `[0, 1]`.
#[derive(Debug)]
pub struct BezierEasingError {
    pub message: String,
}

impl BezierEasingError {
    /// Human-readable description of the rejected input.
    pub fn message(&self) -> (m: &str)
        ensures
            m@ == self.message@,
    {
        self.message.as_str()
    }
}

/// An easing curve with validated control points: `x1` and `x2` lie in
/// `[0, FX_ONE]`, which keeps `x(t)` monotonic and hence invertible.
#[derive(Clone, Copy, Debug, PartialEq, Eq, Structural)]
pub struct CubicBezierEasing {
    pub x1: i64,
    pub y1: i64,
    pub x2: i64,
    pub y2: i64,
}

/// Whether both x-axis control values lie in the unit interval.
pub open spec fn x_controls_in_unit(x1: int, x2: int) -> bool {
    0 <= x1 <= FX_ONE && 0 <= x2 <= FX_ONE
}

/// The eased output for progress `x`: `x` itself on the linear curve and
/// at the exact end points, and `y(t)` with `t` solved from `x(t) = x`
/// everywhere else.
pub open spec fn ease_s(c: CubicBezierEasing, x: int) -> int {
    if c.x1 == c.y1 && c.x2 == c.y2 {
        x
    } else if x == 0 || x == FX_ONE {
        x
    } else {
        calc_bezier_s(t_for_x_s(x, c.x1 as int, c.x2 as int), c.y1 as int, c.y2 as int)
    }
}

/// The identity easing, used as the fast path for linear curves.
pub fn linear_easing(x: i64) -> (y: i64)
    ensures
        y == x,
{
    x
}

impl CubicBezierEasing {
    /// Eased output at progress `x`.
    ///
    /// `x` is conventionally in `[0, FX_ONE]`; out-of-range values are not
    /// rejected, the solver extrapolates and still returns a well-defined
    /// value.
    pub fn ease(&self, x: i64) -> (y: i64)
        ensures
            y == ease_s(*self, x as int),
    {
        if self.x1 == self.y1 && self.x2 == self.y2 {
            return linear_easing(x);
        }
        if x == 0 || x == FX_ONE {
            return x;
        }
        calc_bezier(get_t_for_x(x, self.x1, self.x2), self.y1, self.y2)
    }
}

/// Build the easing function for control points `(x1, y1)` and `(x2, y2)`.
///
/// Fails exactly when `x1` or `x2` lies outside `[0, FX_ONE]`; the y-axis
/// control values are unconstrained, so the curve may overshoot.
pub fn bezier_easing(m_x1: i64, m_y1: i64, m_x2: i64, m_y2: i64) -> (r: Result<
    CubicBezierEasing,
    BezierEasingError,
>)
    ensures
        r is Ok <==> x_controls_in_unit(m_x1 as int, m_x2 as int),
        r matches Ok(c) ==> c == (CubicBezierEasing { x1: m_x1, y1: m_y1, x2: m_x2, y2: m_y2 }),
        r matches Err(e) ==> e.message@ == "x values must be in [0, 1]"@,
{
    if !(m_x1 >= 0 && m_x1 <= FX_ONE && m_x2 >= 0 && m_x2 <= FX_ONE) {
        return Err(BezierEasingError { message: "x values must be in [0, 1]".to_string() });
    }
    Ok(CubicBezierEasing { x1: m_x1, y1: m_y1, x2: m_x2, y2: m_y2 })
}

/// Boundary exactness: every easing returns `0` at `0` and `1` at `1`,
/// whatever its control points.
pub proof fn lemma_boundary_exact(c: CubicBezierEasing)
    ensures
        ease_s(c, 0) == 0,
        ease_s(c, FX_ONE as int) == FX_ONE as int,
{
}

/// Linear identity: a curve whose control points lie on the diagonal in
/// both axes eases every input to itself, bit for bit.
pub proof fn lemma_linear_identity(c: CubicBezierEasing, v: int)
    requires
        c.x1 == c.y1,
        c.x2 == c.y2,
    ensures
        ease_s(c, v) == v,
{
}

/// Determinism: the eased output is a function of the control points and
/// the input alone, so repeated calls with the same `x` return the
/// identical value.
pub proof fn lemma_ease_deterministic(c: CubicBezierEasing, x: int, r1: int, r2: int)
    requires
        r1 == ease_s(c, x),
        r2 == ease_s(c, x),
    ensures
        r1 == r2,
{
}

} // verus!

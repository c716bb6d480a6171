//! Cubic Bézier easing curves over exact fixed-point arithmetic.
//!
//! A curve is defined by two control points `(x1, y1)` and `(x2, y2)`;
//! evaluating the easing function at a progress fraction `x` solves the
//! curve's `x(t) = x` for `t` and returns `y(t)`.  All coordinates are
//! scaled integers: the value `1.0` is [`fixed::FX_ONE`].

pub mod curve;
pub mod easing;
pub mod fixed;
pub mod solver;

pub use easing::bezier_easing;
pub use easing::BezierEasingError;
pub use easing::CubicBezierEasing;

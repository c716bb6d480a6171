use bezier_easing::curve::calc_bezier;
use bezier_easing::curve::calc_sample_values;
use bezier_easing::fixed::FX_ONE;
use bezier_easing::solver::get_t_for_x;
use bezier_easing::solver::interpolate_guess;
use bezier_easing::solver::SUBDIVISION_PRECISION;

#[test]
fn curve_endpoints_evaluate_exactly() {
    assert_eq!(calc_bezier(0, 300_000_000, 800_000_000), 0);
    assert_eq!(calc_bezier(FX_ONE, 300_000_000, 800_000_000), FX_ONE);
}

#[test]
fn sample_table_of_cubic_curve() {
    // with both controls at zero the coordinate is t^3
    let samples = calc_sample_values(0, 0);
    assert_eq!(samples.len(), 11);
    assert_eq!(samples[0], 0);
    assert_eq!(samples[1], 1_000_000);
    assert_eq!(samples[5], 125_000_000);
    assert_eq!(samples[10], FX_ONE);
}

#[test]
fn sample_table_is_nondecreasing_for_valid_controls() {
    let samples = calc_sample_values(900_000_000, 100_000_000);
    for i in 1..samples.len() {
        assert!(samples[i - 1] <= samples[i]);
    }
}

#[test]
fn solved_t_is_nondecreasing_in_x() {
    let mut prev = get_t_for_x(0, 300_000_000, 800_000_000);
    let mut x: i64 = 25_000_000;
    while x <= FX_ONE {
        let t = get_t_for_x(x, 300_000_000, 800_000_000);
        assert!(prev <= t);
        prev = t;
        x += 25_000_000;
    }
}

#[test]
fn newton_branch_solves_to_high_accuracy() {
    for x in [100_000_000, 250_000_000, 500_000_000, 750_000_000, 900_000_000] {
        let t = get_t_for_x(x, 250_000_000, 250_000_000);
        let diff = calc_bezier(t, 250_000_000, 250_000_000) - x;
        assert!(diff.abs() < 1_000_000);
    }
}

#[test]
fn shallow_slope_falls_back_to_subdivision() {
    // x1 at 0 and x2 at 1 make the tangent near t = 0 almost flat in x,
    // so a tiny target routes the solver through binary subdivision
    let x: i64 = 10;
    let t = get_t_for_x(x, 0, FX_ONE);
    let diff = calc_bezier(t, 0, FX_ONE) - x;
    assert!(diff.abs() < SUBDIVISION_PRECISION);
    assert_eq!(t, 97_656);
}

#[test]
fn exactly_zero_slope_returns_the_guess() {
    // extrapolating below zero on the t^3 curve lands on a guess whose
    // fixed-point slope is exactly zero; the guess comes back unrefined
    assert_eq!(get_t_for_x(-5, 0, 0), -500);
}

#[test]
fn zero_width_interval_guess_falls_back_to_interval_start() {
    assert_eq!(interpolate_guess(123, 5, 5, 300_000_000), 300_000_000);
}

#[test]
fn solver_is_deterministic() {
    for x in [3, 77_777_777, 400_000_000, 999_999_999] {
        let first = get_t_for_x(x, 420_000_000, 10_000_000);
        assert_eq!(get_t_for_x(x, 420_000_000, 10_000_000), first);
    }
}

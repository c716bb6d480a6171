use bezier_easing::bezier_easing;
use bezier_easing::fixed::FX_ONE;

#[test]
fn it_works() {
    let ease = bezier_easing(0, 0, FX_ONE, 500_000_000).unwrap();
    assert_eq!(ease.ease(0), 0);
    assert_eq!(ease.ease(500_000_000), 312_500_000);
    assert_eq!(ease.ease(FX_ONE), FX_ONE);
}

#[test]
fn validation_rejects_x_out_of_range() {
    assert!(bezier_easing(-100_000_000, 0, 500_000_000, FX_ONE).is_err());
    assert!(bezier_easing(500_000_000, 0, 1_100_000_000, FX_ONE).is_err());
}

#[test]
fn validation_accepts_x_boundaries() {
    assert!(bezier_easing(0, 0, FX_ONE, FX_ONE).is_ok());
    assert!(bezier_easing(FX_ONE, 0, 0, FX_ONE).is_ok());
}

#[test]
fn validation_error_message() {
    let err = bezier_easing(-1, 0, 0, 0).unwrap_err();
    assert_eq!(err.message(), "x values must be in [0, 1]");
}

#[test]
fn validation_ignores_y_overshoot() {
    assert!(bezier_easing(300_000_000, -2_000_000_000, 700_000_000, 3_000_000_000).is_ok());
}

#[test]
fn boundaries_are_exact() {
    let ease = bezier_easing(300_000_000, -200_000_000, 700_000_000, 1_300_000_000).unwrap();
    assert_eq!(ease.ease(0), 0);
    assert_eq!(ease.ease(FX_ONE), FX_ONE);
}

#[test]
fn linear_curve_is_identity() {
    let ease = bezier_easing(400_000_000, 400_000_000, 400_000_000, 400_000_000).unwrap();
    for v in [-7, 0, 1, 123_456_789, 500_000_000, FX_ONE, FX_ONE + 13] {
        assert_eq!(ease.ease(v), v);
    }
}

#[test]
fn diagonal_control_pairs_are_identity() {
    let ease = bezier_easing(300_000_000, 300_000_000, 700_000_000, 700_000_000).unwrap();
    for v in [0, 250_000_000, 333_333_333, 999_999_999, FX_ONE] {
        assert_eq!(ease.ease(v), v);
    }
}

#[test]
fn repeated_calls_return_identical_values() {
    let ease = bezier_easing(250_000_000, 100_000_000, 250_000_000, FX_ONE).unwrap();
    for x in [1, 100_000_000, 333_333_333, 500_000_000, 900_000_000] {
        let first = ease.ease(x);
        for _ in 0..5 {
            assert_eq!(ease.ease(x), first);
        }
    }
}

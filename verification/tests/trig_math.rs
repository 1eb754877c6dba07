use swerve_rs::angle::{EIGHTH_TURN, HALF_TURN, QUARTER_TURN, TURN_TICKS};
use swerve_rs::fixed::UNIT;
use swerve_rs::trig::{cos_fp, isqrt_u64, sin_fp, vec_angle};
use swerve_rs::types::SwerveState;
use swerve_rs::vector::Vec2;

#[test]
fn sine_exact_at_quarter_points() {
    assert_eq!(sin_fp(0), 0);
    assert_eq!(sin_fp(QUARTER_TURN), UNIT);
    assert_eq!(sin_fp(HALF_TURN), 0);
    assert_eq!(sin_fp(HALF_TURN + QUARTER_TURN), -UNIT);
    assert_eq!(sin_fp(TURN_TICKS), 0);
}

#[test]
fn cosine_exact_at_quarter_points() {
    assert_eq!(cos_fp(0), UNIT);
    assert_eq!(cos_fp(QUARTER_TURN), 0);
    assert_eq!(cos_fp(HALF_TURN), -UNIT);
    assert_eq!(cos_fp(-QUARTER_TURN), 0);
    assert_eq!(cos_fp(TURN_TICKS), UNIT);
}

#[test]
fn sine_of_eighth_turn_close_to_true_value() {
    // The rational half-wave at 45 degrees: 16*(1/4)*(3/4) / (5 - 4*(1/4)*(3/4))
    // of the unit scale, rounded down.
    assert_eq!(sin_fp(EIGHTH_TURN), 705_882);
    let true_value = (std::f64::consts::FRAC_PI_4.sin() * UNIT as f64) as i64;
    assert!((sin_fp(EIGHTH_TURN) - true_value).abs() < 2_000);
}

#[test]
fn sine_is_odd_around_zero() {
    for a in [1, 1000, EIGHTH_TURN, QUARTER_TURN, 3_000_000] {
        assert_eq!(sin_fp(-a), -sin_fp(a));
    }
}

#[test]
fn vector_angles_on_axes_and_diagonals() {
    assert_eq!(vec_angle(UNIT, 0), 0);
    assert_eq!(vec_angle(0, UNIT), QUARTER_TURN);
    assert_eq!(vec_angle(-UNIT, 0), HALF_TURN);
    assert_eq!(vec_angle(0, -UNIT), TURN_TICKS - QUARTER_TURN);
    assert_eq!(vec_angle(UNIT, UNIT), EIGHTH_TURN);
    assert_eq!(vec_angle(-UNIT, UNIT), HALF_TURN - EIGHTH_TURN);
    assert_eq!(vec_angle(-UNIT, -UNIT), HALF_TURN + EIGHTH_TURN);
    assert_eq!(vec_angle(UNIT, -UNIT), TURN_TICKS - EIGHTH_TURN);
}

#[test]
fn vector_angle_tracks_true_arctangent() {
    let cases = [(3, 1), (1, 3), (5, -2), (-4, 7), (-3, -8), (9, 9)];
    for (x, y) in cases {
        let xs = x * 100_000i64;
        let ys = y * 100_000i64;
        let ticks = vec_angle(xs, ys);
        let true_angle = (ys as f64).atan2(xs as f64).rem_euclid(std::f64::consts::TAU);
        let true_ticks = (true_angle / std::f64::consts::TAU * TURN_TICKS as f64) as i64;
        let diff = (ticks - true_ticks).rem_euclid(TURN_TICKS);
        let wrapped = diff.min(TURN_TICKS - diff);
        // The quadratic fit stays within a quarter of a degree or so.
        assert!(wrapped < 8_000, "angle for ({x},{y}): got {ticks}, true {true_ticks}");
    }
}

#[test]
fn integer_square_roots() {
    assert_eq!(isqrt_u64(0), 0);
    assert_eq!(isqrt_u64(1), 1);
    assert_eq!(isqrt_u64(15), 3);
    assert_eq!(isqrt_u64(16), 4);
    assert_eq!(isqrt_u64(999_999), 999);
    assert_eq!(isqrt_u64(1_000_000), 1000);
    assert_eq!(isqrt_u64(u64::MAX), 4_294_967_295);
}

#[test]
fn polar_round_trip_is_close() {
    for (x, y) in [(300_000i64, 400_000i64), (-250_000, 600_000), (123_456, -654_321)] {
        let s = SwerveState::from_vector(Vec2::new(x, y), 0);
        let v = s.to_vector();
        // One trip through polar form and back loses at most the fit error
        // of the circle functions: well under one percent of full scale.
        assert!((v.x - x).abs() < 10_000, "({x},{y}) came back as ({},{})", v.x, v.y);
        assert!((v.y - y).abs() < 10_000, "({x},{y}) came back as ({},{})", v.x, v.y);
    }
}

#[test]
fn magnitude_of_three_four_five() {
    let v = Vec2::new(3_000_000, 4_000_000);
    assert_eq!(v.magnitude(), 5_000_000);
    let w = Vec2::new(-3_000_000, 4_000_000);
    assert_eq!(w.magnitude(), 5_000_000);
}

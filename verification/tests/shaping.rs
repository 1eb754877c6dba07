use swerve_rs::angle::{HALF_TURN, QUARTER_TURN};
use swerve_rs::fixed::UNIT;
use swerve_rs::limiter::{ConfigError, RateLimiter};
use swerve_rs::shaper::{MotionShaper, ShaperConfig};
use swerve_rs::types::SwerveState;

fn test_config() -> ShaperConfig {
    ShaperConfig {
        max_speed: UNIT,
        speed_rate: 1_000_000_000,
        angle_rate: 1_000_000_000,
        turn_rate: 1_000_000_000,
        low_speed: 1_000,
    }
}

#[test]
fn limiter_rejects_bad_bounds() {
    assert_eq!(RateLimiter::new(-1, 0).unwrap_err(), ConfigError::NegativeLimit);
    assert!(RateLimiter::new(2_000_000_000, 0).is_err());
    assert!(RateLimiter::new(0, 0).is_ok());
}

#[test]
fn limiter_moves_at_most_rate_times_dt() {
    let mut l = RateLimiter::new(UNIT, 0).unwrap();
    // One unit per second over twenty milliseconds: twenty thousand steps.
    assert_eq!(l.apply(UNIT, 20_000), 20_000);
    assert_eq!(l.apply(UNIT, 20_000), 40_000);
    // A sample within reach is taken exactly.
    assert_eq!(l.apply(45_000, 20_000), 45_000);
    // And it follows back down, clamped the same way.
    assert_eq!(l.apply(-UNIT, 20_000), 25_000);
}

#[test]
fn limiter_consecutive_steps_bounded() {
    let mut l = RateLimiter::new(250_000, 0).unwrap();
    let mut last = 0i64;
    let samples = [UNIT, UNIT, -UNIT, 300_000, -300_000, UNIT, 0, 0];
    for s in samples {
        let out = l.apply(s, 20_000);
        assert!((out - last).abs() <= 250_000 * 20_000 / UNIT);
        last = out;
    }
}

#[test]
fn shaper_new_checks_config() {
    assert!(MotionShaper::new(test_config(), 0).is_ok());
    let mut bad = test_config();
    bad.max_speed = 0;
    assert!(MotionShaper::new(bad, 0).is_err());
}

#[test]
fn shaper_adopts_target_angle_from_standstill() {
    let mut sh = MotionShaper::new(test_config(), 0).unwrap();
    // At rest the previous direction means nothing: the target's angle is
    // adopted outright and the speed ramps toward the request.
    let (out, _) = sh.shape(SwerveState::new(QUARTER_TURN, 500_000), 0, 1_000_000);
    assert_eq!(out.get_angle(), QUARTER_TURN);
    assert_eq!(out.get_drive(), 500_000);
}

#[test]
fn shaper_opposed_target_derates_speed_to_zero() {
    // Moving along angle zero; the new target points exactly backward.
    let mut sh = MotionShaper {
        config: test_config(),
        last_angle: 0,
        last_mag: 500_000,
        turn_limiter: RateLimiter::new(1_000_000_000, 0).unwrap(),
    };
    let (out, _) = sh.shape(SwerveState::new(HALF_TURN, UNIT), 0, 1_000_000);
    // The cubic derating wipes the requested speed out entirely, whatever
    // was asked; the flip keeps the wheel pointing where it was.
    assert_eq!(out.get_drive(), 0);
    assert_eq!(out.get_angle(), 0);
}

#[test]
fn shaper_right_angle_keeps_an_eighth_of_speed() {
    let mut sh = MotionShaper {
        config: test_config(),
        last_angle: 0,
        last_mag: 500_000,
        turn_limiter: RateLimiter::new(1_000_000_000, 0).unwrap(),
    };
    // A quarter-turn error: (1 - 1/2)^3 of the speed survives derating.
    let (out, _) = sh.shape(SwerveState::new(QUARTER_TURN, 800_000), 0, 1_000_000);
    assert_eq!(out.get_drive(), 100_000);
    assert_eq!(out.get_angle(), QUARTER_TURN);
}

#[test]
fn shaper_magnitude_slew_bounded() {
    let mut cfg = test_config();
    cfg.speed_rate = UNIT;
    let mut sh = MotionShaper::new(cfg, 0).unwrap();
    let mut last = 0i64;
    for _ in 0..10 {
        let (out, _) = sh.shape(SwerveState::new(0, UNIT), 0, 20_000);
        assert!((out.get_drive() - last).abs() <= 20_000);
        last = out.get_drive();
    }
    assert_eq!(last, 200_000);
}

#[test]
fn shaper_limits_turn_rate_channel() {
    let mut cfg = test_config();
    cfg.turn_rate = UNIT;
    let mut sh = MotionShaper::new(cfg, 0).unwrap();
    let (_, turn) = sh.shape(SwerveState::new(0, 0), UNIT, 20_000);
    assert_eq!(turn, 20_000);
    let (_, turn) = sh.shape(SwerveState::new(0, 0), UNIT, 20_000);
    assert_eq!(turn, 40_000);
}

#[test]
fn shaper_steering_rate_shrinks_with_speed() {
    // At full speed the adaptive steering rate reaches zero: the stored
    // angle cannot move at all.
    let mut sh = MotionShaper {
        config: test_config(),
        last_angle: 0,
        last_mag: UNIT,
        turn_limiter: RateLimiter::new(1_000_000_000, 0).unwrap(),
    };
    let (out, _) = sh.shape(SwerveState::new(QUARTER_TURN, UNIT), 0, 1_000_000);
    assert_eq!(out.get_angle(), 0);
}

use swerve_rs::angle::{normalize_angle, optimize_angle, HALF_TURN, QUARTER_TURN, TURN_TICKS};
use swerve_rs::types::SwerveState;

#[test]
fn state_accessors_and_stop() {
    let mut s = SwerveState::new(123, 456);
    assert_eq!(s.get_angle(), 123);
    assert_eq!(s.get_drive(), 456);
    s.stop();
    assert_eq!(s.get_angle(), 123);
    assert_eq!(s.get_drive(), 0);
}

#[test]
fn optimize_keeps_small_deltas() {
    let target = SwerveState::new(QUARTER_TURN, 1_000_000);
    let out = target.optimize(SwerveState::new(0, 0));
    // Exactly a quarter turn of travel: no flip.
    assert_eq!(out.get_angle(), QUARTER_TURN);
    assert_eq!(out.get_drive(), 1_000_000);
}

#[test]
fn optimize_flips_large_deltas() {
    // A target three eighths of a turn away costs more than a quarter turn
    // of steering; its half-turn flip costs only an eighth.
    let target = SwerveState::new(3_000_000, 1_000_000);
    let out = target.optimize(SwerveState::new(0, 0));
    assert_eq!(out.get_angle(), TURN_TICKS - 1_000_000);
    assert_eq!(out.get_drive(), -1_000_000);
}

#[test]
fn optimize_sees_through_wraparound_equivalents() {
    // Three quarters of a turn forward is only a quarter turn backward:
    // after wraparound resolution no flip is needed.
    let target = SwerveState::new(3 * QUARTER_TURN, 1_000_000);
    let out = target.optimize(SwerveState::new(0, 0));
    assert_eq!(out.get_angle(), 3 * QUARTER_TURN);
    assert_eq!(out.get_drive(), 1_000_000);
}

#[test]
fn optimize_flips_across_wraparound() {
    // Previous just below a full turn, target just past zero plus half a
    // turn: the true delta is resolved through the wraparound first.
    let target = SwerveState::new(HALF_TURN + 100, 500_000);
    let out = target.optimize(SwerveState::new(TURN_TICKS - 50, 0));
    assert_eq!(out.get_angle(), 100);
    assert_eq!(out.get_drive(), -500_000);
}

#[test]
fn optimize_opposed_target_flips_back() {
    // The end-to-end pattern: asked to drive forward while pointing
    // backward, the module keeps pointing backward and runs in reverse.
    let target = SwerveState::new(0, 1_000_000);
    let out = target.optimize(SwerveState::new(HALF_TURN, 0));
    assert_eq!(out.get_angle(), HALF_TURN);
    assert_eq!(out.get_drive(), -1_000_000);
}

#[test]
fn optimize_bounded_travel_everywhere() {
    let angles = [
        0,
        1,
        QUARTER_TURN - 1,
        QUARTER_TURN + 1,
        HALF_TURN,
        TURN_TICKS - 1,
        -QUARTER_TURN,
        3 * TURN_TICKS + 777,
    ];
    for &prev in &angles {
        for &tgt in &angles {
            let out = SwerveState::new(tgt, 250_000).optimize(SwerveState::new(prev, 0));
            let (a, rep) = optimize_angle(prev, out.get_angle());
            assert!(
                (rep - a).abs() <= QUARTER_TURN,
                "travel from {prev} to {tgt} left {} ticks",
                (rep - a).abs()
            );
            // The flip preserves the wheel's line of motion.
            let same_line = normalize_angle(out.get_angle()) == normalize_angle(tgt)
                || normalize_angle(out.get_angle()) == normalize_angle(tgt + HALF_TURN);
            assert!(same_line);
        }
    }
}

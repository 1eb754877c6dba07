use swerve_rs::angle::{
    normalize_angle, optimize_angle, EIGHTH_TURN, HALF_TURN, QUARTER_TURN, TURN_TICKS,
};

#[test]
fn normalize_identity_in_range() {
    assert_eq!(normalize_angle(0), 0);
    assert_eq!(normalize_angle(1), 1);
    assert_eq!(normalize_angle(QUARTER_TURN), QUARTER_TURN);
    assert_eq!(normalize_angle(TURN_TICKS - 1), TURN_TICKS - 1);
}

#[test]
fn normalize_wraps_whole_turns() {
    assert_eq!(normalize_angle(TURN_TICKS), 0);
    assert_eq!(normalize_angle(2 * TURN_TICKS), 0);
    assert_eq!(normalize_angle(TURN_TICKS + QUARTER_TURN), QUARTER_TURN);
    assert_eq!(normalize_angle(1000 * TURN_TICKS + 17), 17);
}

#[test]
fn normalize_negative_inputs() {
    assert_eq!(normalize_angle(-1), TURN_TICKS - 1);
    assert_eq!(normalize_angle(-QUARTER_TURN), TURN_TICKS - QUARTER_TURN);
    assert_eq!(normalize_angle(-TURN_TICKS), 0);
    assert_eq!(normalize_angle(-1000 * TURN_TICKS - 17), TURN_TICKS - 17);
}

#[test]
fn normalize_idempotent() {
    for raw in [
        0,
        5,
        -5,
        HALF_TURN,
        -HALF_TURN,
        3 * TURN_TICKS + 123,
        -7 * TURN_TICKS - 99,
        i64::MAX,
        i64::MIN,
    ] {
        let once = normalize_angle(raw);
        assert_eq!(normalize_angle(once), once);
        assert!(0 <= once && once < TURN_TICKS);
    }
}

#[test]
fn optimize_angle_keeps_near_representative() {
    // Both already close: b kept as it is.
    let (a, b) = optimize_angle(EIGHTH_TURN, QUARTER_TURN);
    assert_eq!(a, EIGHTH_TURN);
    assert_eq!(b, QUARTER_TURN);
}

#[test]
fn optimize_angle_wraps_up() {
    // a near the top of the range, b near the bottom: b + turn is closer.
    let (a, b) = optimize_angle(TURN_TICKS - 100, 50);
    assert_eq!(a, TURN_TICKS - 100);
    assert_eq!(b, TURN_TICKS + 50);
}

#[test]
fn optimize_angle_wraps_down() {
    // a near the bottom, b near the top: b - turn is closer.
    let (a, b) = optimize_angle(50, TURN_TICKS - 100);
    assert_eq!(a, 50);
    assert_eq!(b, -100);
}

#[test]
fn optimize_angle_tie_prefers_own_value() {
    // b sits exactly half a turn from a: the tie keeps b's own value.
    let (a, b) = optimize_angle(0, HALF_TURN);
    assert_eq!(a, 0);
    assert_eq!(b, HALF_TURN);
}

#[test]
fn optimize_angle_within_half_turn() {
    for (x, y) in [
        (0, 0),
        (0, HALF_TURN),
        (TURN_TICKS - 1, 1),
        (1, TURN_TICKS - 1),
        (-3 * TURN_TICKS + 5, 9 * TURN_TICKS - 5),
        (QUARTER_TURN, 7 * EIGHTH_TURN),
    ] {
        let (a, b) = optimize_angle(x, y);
        assert!((a - b).abs() <= HALF_TURN);
        assert_eq!(normalize_angle(b), normalize_angle(y));
    }
}

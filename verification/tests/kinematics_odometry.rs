use swerve_rs::angle::{HALF_TURN, QUARTER_TURN, TURN_TICKS};
use swerve_rs::fixed::UNIT;
use swerve_rs::kinematics::{
    module_positions_from_dimensions, ModuleStates, SwerveKinematics,
};
use swerve_rs::odometry::{Odometry, Pose};
use swerve_rs::trig::vec_angle;
use swerve_rs::types::SwerveState;
use swerve_rs::vector::Vec2;

const TRACK_WIDTH: i64 = 723_900;
const WHEEL_BASE: i64 = 609_600;

fn test_base() -> SwerveKinematics {
    SwerveKinematics::new(module_positions_from_dimensions(TRACK_WIDTH, WHEEL_BASE))
}

#[test]
fn positions_from_dimensions() {
    let p = module_positions_from_dimensions(TRACK_WIDTH, WHEEL_BASE);
    assert_eq!(p.front_left, Vec2::new(304_800, 361_950));
    assert_eq!(p.front_right, Vec2::new(304_800, -361_950));
    assert_eq!(p.rear_left, Vec2::new(-304_800, 361_950));
    assert_eq!(p.rear_right, Vec2::new(-304_800, -361_950));
}

#[test]
fn inverse_pure_translation_is_uniform() {
    let k = test_base();
    let drive = Vec2::new(UNIT, 0);
    let v = k.inverse(drive, 0, 0);
    assert_eq!(v.front_left, drive);
    assert_eq!(v.front_right, drive);
    assert_eq!(v.rear_left, drive);
    assert_eq!(v.rear_right, drive);
}

#[test]
fn inverse_diagonal_translation_is_uniform() {
    let k = test_base();
    let drive = Vec2::new(300_000, -400_000);
    let v = k.inverse(drive, 0, 0);
    assert_eq!(v.front_left, drive);
    assert_eq!(v.rear_right, drive);
}

#[test]
fn inverse_pure_rotation_is_tangential() {
    let k = test_base();
    let v = k.inverse(Vec2::new(0, 0), UNIT, 0);
    // Each module's vector is its mounting point turned a quarter turn,
    // scaled by the unit turn rate.
    assert_eq!(v.front_left, Vec2::new(-361_950, 304_800));
    assert_eq!(v.front_right, Vec2::new(361_950, 304_800));
    assert_eq!(v.rear_left, Vec2::new(-361_950, -304_800));
    assert_eq!(v.rear_right, Vec2::new(361_950, -304_800));
}

#[test]
fn inverse_heading_half_turn_reverses_drive() {
    let k = test_base();
    // Facing backward, a field-forward request drives the robot frame
    // backward.
    let v = k.inverse(Vec2::new(UNIT, 0), 0, HALF_TURN);
    assert_eq!(v.front_left, Vec2::new(-UNIT, 0));
    assert_eq!(v.rear_right, Vec2::new(-UNIT, 0));
}

#[test]
fn brake_locks_wheels_along_mounting_lines() {
    let k = test_base();
    let stance = k.brake();
    // Every wheel points from the robot center to its own corner, at rest.
    assert_eq!(stance.front_left.get_angle(), vec_angle(304_800, 361_950));
    assert_eq!(stance.front_right.get_angle(), vec_angle(304_800, -361_950));
    assert_eq!(stance.rear_left.get_angle(), vec_angle(-304_800, 361_950));
    assert_eq!(stance.rear_right.get_angle(), vec_angle(-304_800, -361_950));
    assert_eq!(stance.front_left.get_drive(), 0);
    assert_eq!(stance.front_right.get_drive(), 0);
    assert_eq!(stance.rear_left.get_drive(), 0);
    assert_eq!(stance.rear_right.get_drive(), 0);
    // The four angles sit in their four quadrants, mirrored in pairs.
    let fl = stance.front_left.get_angle();
    assert!(0 < fl && fl < QUARTER_TURN);
    assert_eq!(stance.front_right.get_angle(), TURN_TICKS - fl);
    assert_eq!(stance.rear_left.get_angle(), HALF_TURN - fl);
    assert_eq!(stance.rear_right.get_angle(), HALF_TURN + fl);
}

#[test]
fn forward_recovers_uniform_translation() {
    let k = test_base();
    let vectors = swerve_rs::kinematics::ModuleVectors {
        front_left: SwerveState::new(0, UNIT).to_vector(),
        front_right: SwerveState::new(0, UNIT).to_vector(),
        rear_left: SwerveState::new(0, UNIT).to_vector(),
        rear_right: SwerveState::new(0, UNIT).to_vector(),
    };
    let (v, omega) = k.forward(vectors);
    assert_eq!(v, Vec2::new(UNIT, 0));
    assert_eq!(omega, 0);
}

#[test]
fn odometry_straight_line_round_trip() {
    let mut od = Odometry::new(test_base(), Pose { x: 0, y: 0, heading: 0 });
    let feedback = ModuleStates {
        front_left: SwerveState::new(0, UNIT),
        front_right: SwerveState::new(0, UNIT),
        rear_left: SwerveState::new(0, UNIT),
        rear_right: SwerveState::new(0, UNIT),
    };
    let dt = 20_000;
    let n = 50;
    for _ in 0..n {
        let (v, omega) = od.update(feedback, 0, dt);
        assert_eq!(v, Vec2::new(UNIT, 0));
        assert_eq!(omega, 0);
    }
    let pose = od.get_pose();
    // One unit per second for one second of ticks: one unit along x,
    // nothing anywhere else.
    assert_eq!(pose.x, n * dt);
    assert_eq!(pose.x, UNIT);
    assert_eq!(pose.y, 0);
    assert_eq!(pose.heading, 0);
}

#[test]
fn odometry_stores_measured_heading() {
    let mut od = Odometry::new(test_base(), Pose { x: 0, y: 0, heading: 0 });
    let rest = ModuleStates {
        front_left: SwerveState::new(0, 0),
        front_right: SwerveState::new(0, 0),
        rear_left: SwerveState::new(0, 0),
        rear_right: SwerveState::new(0, 0),
    };
    od.update(rest, QUARTER_TURN + TURN_TICKS, 20_000);
    assert_eq!(od.get_pose().heading, QUARTER_TURN);
    assert_eq!(od.get_pose().x, 0);
    assert_eq!(od.get_pose().y, 0);
}

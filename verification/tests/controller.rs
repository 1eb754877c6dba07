use swerve_rs::angle::{HALF_TURN, QUARTER_TURN, TURN_TICKS};
use swerve_rs::drivetrain::{
    Drivetrain, DrivetrainConfig, DrivetrainSetup, ModuleSetup, SwerveModule,
};
use swerve_rs::fixed::UNIT;
use swerve_rs::kinematics::ModuleStates;
use swerve_rs::shaper::ShaperConfig;
use swerve_rs::types::SwerveState;
use swerve_rs::vector::Vec2;

fn test_config() -> DrivetrainConfig {
    DrivetrainConfig {
        track_width: 723_900,
        wheel_base: 609_600,
        max_velocity: UNIT,
        max_rotation: UNIT,
        shaper: ShaperConfig {
            max_speed: UNIT,
            speed_rate: 1_000_000_000,
            angle_rate: 1_000_000_000,
            turn_rate: 1_000_000_000,
            low_speed: 1_000,
        },
    }
}

fn setup_at(angle: i64) -> DrivetrainSetup {
    let m = ModuleSetup { starting_angle: angle, angle_offset: 0 };
    DrivetrainSetup { front_left: m, front_right: m, rear_left: m, rear_right: m }
}

#[test]
fn module_folds_offset_into_command() {
    let mut m = SwerveModule::new(0, QUARTER_TURN);
    let cmd = m.set_target(SwerveState::new(0, 500_000));
    assert_eq!(cmd.get_angle(), QUARTER_TURN);
    assert_eq!(cmd.get_drive(), 500_000);
}

#[test]
fn module_normalizes_negative_offset() {
    let m = SwerveModule::new(0, -QUARTER_TURN);
    assert_eq!(m.offset, TURN_TICKS - QUARTER_TURN);
}

#[test]
fn construction_rejects_bad_configs() {
    let mut narrow = test_config();
    narrow.track_width = 1;
    assert!(Drivetrain::new(narrow, setup_at(0)).is_err());
    let mut fast = test_config();
    fast.max_velocity = 600_000_000;
    assert!(Drivetrain::new(fast, setup_at(0)).is_err());
    let mut bad_shaper = test_config();
    bad_shaper.shaper.max_speed = -5;
    assert!(Drivetrain::new(bad_shaper, setup_at(0)).is_err());
    assert!(Drivetrain::new(test_config(), setup_at(0)).is_ok());
}

#[test]
fn starts_at_origin_at_rest() {
    let d = Drivetrain::new(test_config(), setup_at(0)).unwrap();
    let pose = d.get_pose();
    assert_eq!((pose.x, pose.y, pose.heading), (0, 0, 0));
}

#[test]
fn heading_reading_is_negated_and_normalized() {
    let d = Drivetrain::new(test_config(), setup_at(0)).unwrap();
    assert_eq!(d.get_heading(0), 0);
    assert_eq!(d.get_heading(QUARTER_TURN), TURN_TICKS - QUARTER_TURN);
    assert_eq!(d.get_heading(-QUARTER_TURN), QUARTER_TURN);
    assert_eq!(d.get_heading(TURN_TICKS), 0);
}

#[test]
fn full_forward_from_rest() {
    let mut d = Drivetrain::new(test_config(), setup_at(0)).unwrap();
    let cmd = d.set_input(Vec2::new(UNIT, 0), 0, 0, 1_000_000);
    for c in [cmd.front_left, cmd.front_right, cmd.rear_left, cmd.rear_right] {
        assert_eq!(c.get_angle(), 0);
        assert_eq!(c.get_drive(), UNIT);
    }
}

#[test]
fn forward_request_while_pointing_backward_flips() {
    // The end-to-end scenario: at rest with every wheel pointing half a
    // turn round, a full forward request comes in.  Turning each wheel all
    // the way back would cost half a turn of steering; the optimizer keeps
    // the wheels where they are and runs them in reverse instead.
    let mut d = Drivetrain::new(test_config(), setup_at(HALF_TURN)).unwrap();
    let cmd = d.set_input(Vec2::new(UNIT, 0), 0, 0, 1_000_000);
    for c in [cmd.front_left, cmd.front_right, cmd.rear_left, cmd.rear_right] {
        assert_eq!(c.get_angle(), HALF_TURN);
        assert_eq!(c.get_drive(), -UNIT);
    }
}

#[test]
fn zero_input_keeps_wheels_still() {
    let mut d = Drivetrain::new(test_config(), setup_at(QUARTER_TURN)).unwrap();
    let cmd = d.set_input(Vec2::new(0, 0), 0, 0, 1_000_000);
    for c in [cmd.front_left, cmd.front_right, cmd.rear_left, cmd.rear_right] {
        // No motion requested: the wheels stay where they point, at rest.
        assert_eq!(c.get_angle(), QUARTER_TURN);
        assert_eq!(c.get_drive(), 0);
    }
}

#[test]
fn brake_and_stop() {
    let mut d = Drivetrain::new(test_config(), setup_at(0)).unwrap();
    let cmd = d.brake();
    assert_eq!(cmd.front_left.get_drive(), 0);
    assert_eq!(cmd.rear_right.get_drive(), 0);
    // The braking stance points each wheel into its own quadrant, up to the
    // optimizer's half-turn flip.
    let fl = d.front_left.current_state.angle;
    assert!(
        (0 < fl && fl < QUARTER_TURN) || (HALF_TURN < fl && fl < HALF_TURN + QUARTER_TURN)
    );
    d.stop();
    assert_eq!(d.front_left.current_state.drive, 0);
    assert_eq!(d.rear_right.current_state.drive, 0);
}

#[test]
fn raw_input_skips_shaping() {
    let mut d = Drivetrain::new(test_config(), setup_at(0)).unwrap();
    // A raw command is distributed as it stands, with no slewing.
    let cmd = d.set_input_raw(Vec2::new(0, 500_000), 0, 0);
    for c in [cmd.front_left, cmd.front_right, cmd.rear_left, cmd.rear_right] {
        assert_eq!(c.get_angle(), QUARTER_TURN);
        assert_eq!(c.get_drive(), 500_000);
    }
}

#[test]
fn controller_odometry_round_trip() {
    let mut d = Drivetrain::new(test_config(), setup_at(0)).unwrap();
    let feedback = ModuleStates {
        front_left: SwerveState::new(0, UNIT),
        front_right: SwerveState::new(0, UNIT),
        rear_left: SwerveState::new(0, UNIT),
        rear_right: SwerveState::new(0, UNIT),
    };
    for _ in 0..25 {
        d.update_odometry(feedback, 0, 20_000);
    }
    assert_eq!(d.get_pose().x, 500_000);
    assert_eq!(d.get_pose().y, 0);
    assert_eq!(d.get_pose().heading, 0);
}

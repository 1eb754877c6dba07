//! The drivetrain controller: the one owner of all per-cycle mutable state.
//!
//! A `SwerveModule` keeps the last state commanded to one wheel and that
//! wheel's mechanical zero offset; the `Drivetrain` owns the four modules,
//! the base geometry, the motion shaper and the odometry integrator, and
//! turns each cycle's input into four motor commands.  Everything that talks
//! to hardware — motor controllers, the heading sensor, the scheduler —
//! lives outside and exchanges plain values with this controller.

use vstd::prelude::*;
use crate::angle::{norm_spec, normalize_angle, TURN_TICKS};
use crate::fixed::{abs_spec, lemma_div_unit_bound, mul_div_unit, COORD_LIMIT, UNIT};
use crate::kinematics::{module_positions_from_dimensions, tangential_x_spec, tangential_y_spec,
    ModuleStates, SwerveKinematics, MIN_EXTENT_SQ, OFFSET_LIMIT, TURN_RATE_LIMIT};
use crate::limiter::{ConfigError, DT_LIMIT};
use crate::odometry::{Odometry, Pose, POSE_LIMIT, POSE_STEP};
use crate::shaper::{shape_spec, MotionShaper, ShaperConfig};
use crate::types::{optimize_spec, polar_angle_spec, polar_vec_x_spec, polar_vec_y_spec,
    SwerveState, SPEED_LIMIT};
use crate::vector::{magnitude_spec, rot_x_spec, rot_y_spec, Vec2};

verus! {

/// One wheel's controller-side state: the last commanded angle and speed,
/// and the module's mechanical zero correction.
#[derive(Clone, Copy, Debug, PartialEq, Eq, Structural)]
pub struct SwerveModule {
    pub current_state: SwerveState,
    pub offset: i64,
}

/// The polar target that inverse kinematics asks of the module mounted at
/// `pos`, for a body drive `(dx, dy)`, a turn rate, and a heading; a module
/// asked for no motion keeps its previous angle.
pub open spec fn raw_target_spec(
    pos: Vec2,
    dx: int,
    dy: int,
    turn: int,
    heading: int,
    prev_angle: int,
) -> (int, int) {
    let na = TURN_TICKS - norm_spec(heading);
    let vx = rot_x_spec(dx, dy, na) + tangential_x_spec(pos, turn);
    let vy = rot_y_spec(dx, dy, na) + tangential_y_spec(pos, turn);
    (polar_angle_spec(vx, vy, prev_angle), magnitude_spec(vx, vy))
}

/// What that target becomes once the module's optimizer has resolved it
/// against the previously commanded angle.
pub open spec fn commanded_spec(
    pos: Vec2,
    dx: int,
    dy: int,
    turn: int,
    heading: int,
    prev_angle: int,
) -> (int, int) {
    let ts = raw_target_spec(pos, dx, dy, turn, heading, prev_angle);
    optimize_spec(ts.0, ts.1, prev_angle)
}

impl SwerveModule {
    /// The stored command carries a speed in range and a canonical offset.
    pub open spec fn wf(self) -> bool {
        &&& self.current_state.wf()
        &&& 0 <= self.offset < TURN_TICKS
    }

    /// A module at rest whose wheel reads `starting_angle`, with the given
    /// mechanical zero correction reduced to the canonical range.
    pub fn new(starting_angle: i64, angle_offset: i64) -> (r: SwerveModule)
        ensures
            r.current_state.angle == starting_angle,
            r.current_state.drive == 0,
            r.offset == norm_spec(angle_offset as int),
            r.wf(),
    {
        SwerveModule {
            current_state: SwerveState { angle: starting_angle, drive: 0 },
            offset: normalize_angle(angle_offset),
        }
    }

    /// Resolves `state` against the last commanded state, keeps the result
    /// as the new last command, and returns it as a motor command with the
    /// mechanical offset folded into the angle.
    pub fn set_target(&mut self, state: SwerveState) -> (cmd: SwerveState)
        requires
            old(self).wf(),
            state.wf(),
        ensures
            final(self).current_state.angle == optimize_spec(
                state.angle as int,
                state.drive as int,
                old(self).current_state.angle as int,
            ).0,
            final(self).current_state.drive == optimize_spec(
                state.angle as int,
                state.drive as int,
                old(self).current_state.angle as int,
            ).1,
            final(self).offset == old(self).offset,
            final(self).wf(),
            cmd.angle == norm_spec(final(self).current_state.angle + old(self).offset),
            cmd.drive == final(self).current_state.drive,
    {
        let st = state.optimize(self.current_state);
        self.current_state = st;
        let na = normalize_angle(st.get_angle());
        proof {
            vstd::arithmetic::div_mod::lemma_add_mod_noop(
                st.angle as int,
                self.offset as int,
                TURN_TICKS as int,
            );
            vstd::arithmetic::div_mod::lemma_add_mod_noop(
                na as int,
                self.offset as int,
                TURN_TICKS as int,
            );
            vstd::arithmetic::div_mod::lemma_small_mod(self.offset as nat, TURN_TICKS as nat);
            crate::angle::lemma_normalize_idempotent(st.angle as int);
        }
        SwerveState { angle: normalize_angle(na + self.offset), drive: st.get_drive() }
    }

    /// Marks the module stopped: the kept command keeps its angle at zero
    /// speed, so the next cycle's optimization starts from a true picture.
    pub fn stop(&mut self)
        requires
            old(self).wf(),
        ensures
            final(self).current_state.angle == old(self).current_state.angle,
            final(self).current_state.drive == 0,
            final(self).offset == old(self).offset,
            final(self).wf(),
    {
        self.current_state.stop();
    }
}

/// The tuning constants of a drivetrain.
#[derive(Clone, Copy, Debug, PartialEq, Eq, Structural)]
pub struct DrivetrainConfig {
    /// The y spread of the mounting points, micro-units.
    pub track_width: i64,
    /// The x spread of the mounting points, micro-units.
    pub wheel_base: i64,
    /// What a full-scale drive input means, micro-units per second.
    pub max_velocity: i64,
    /// What a full-scale turn input means, micro-radians per second.
    pub max_rotation: i64,
    /// The motion shaper's constants.
    pub shaper: ShaperConfig,
}

impl DrivetrainConfig {
    /// Every constant is in range and the geometry spreads the modules
    /// widely enough for the odometry's rotation fit.
    pub open spec fn wf(self) -> bool {
        &&& 2 <= self.track_width <= 2 * OFFSET_LIMIT
        &&& 2 <= self.wheel_base <= 2 * OFFSET_LIMIT
        &&& 0 < self.max_velocity <= COORD_LIMIT / 2
        &&& 0 < self.max_rotation <= TURN_RATE_LIMIT
        &&& self.shaper.wf()
        &&& ({
            let hx = self.wheel_base as int / 2;
            let hy = self.track_width as int / 2;
            4 * (hx * hx + hy * hy) >= MIN_EXTENT_SQ
        })
    }
}

/// The fixed description of one module: what its wheel angle read at start,
/// and its mechanical zero correction.
#[derive(Clone, Copy, Debug, PartialEq, Eq, Structural)]
pub struct ModuleSetup {
    pub starting_angle: i64,
    pub angle_offset: i64,
}

/// The four modules' descriptions.
#[derive(Clone, Copy, Debug, PartialEq, Eq, Structural)]
pub struct DrivetrainSetup {
    pub front_left: ModuleSetup,
    pub front_right: ModuleSetup,
    pub rear_left: ModuleSetup,
    pub rear_right: ModuleSetup,
}

/// The drivetrain controller.
#[derive(Clone, Copy, Debug, PartialEq, Eq, Structural)]
pub struct Drivetrain {
    pub front_left: SwerveModule,
    pub front_right: SwerveModule,
    pub rear_left: SwerveModule,
    pub rear_right: SwerveModule,
    pub kinematics: SwerveKinematics,
    pub odometry: Odometry,
    pub shaper: MotionShaper,
    pub config: DrivetrainConfig,
}

impl Drivetrain {
    /// Every part is well formed, the shaper runs on this drivetrain's
    /// constants, its held command never exceeds what scaling can ask, and
    /// the odometry shares the geometry.
    pub open spec fn wf(self) -> bool {
        &&& self.config.wf()
        &&& self.kinematics.wf()
        &&& self.front_left.wf()
        &&& self.front_right.wf()
        &&& self.rear_left.wf()
        &&& self.rear_right.wf()
        &&& self.odometry.wf()
        &&& self.odometry.kinematics == self.kinematics
        &&& self.shaper.wf()
        &&& self.shaper.config == self.config.shaper
        &&& abs_spec(self.shaper.last_mag as int) <= 2 * self.config.max_velocity
        &&& abs_spec(self.shaper.turn_limiter.value as int) <= self.config.max_rotation
    }

    /// A drivetrain at rest at the field origin, its geometry built from the
    /// configured dimensions and its modules holding their starting angles.
    /// Fails exactly on a configuration outside `DrivetrainConfig::wf`.
    pub fn new(config: DrivetrainConfig, setup: DrivetrainSetup) -> (r: Result<
        Drivetrain,
        ConfigError,
    >)
        ensures
            r is Ok <==> config.wf(),
            r matches Ok(d) ==> {
                &&& d.wf()
                &&& d.config == config
                &&& d.front_left.current_state.angle == setup.front_left.starting_angle
                &&& d.front_right.current_state.angle == setup.front_right.starting_angle
                &&& d.rear_left.current_state.angle == setup.rear_left.starting_angle
                &&& d.rear_right.current_state.angle == setup.rear_right.starting_angle
                &&& d.front_left.current_state.drive == 0
                &&& d.front_right.current_state.drive == 0
                &&& d.rear_left.current_state.drive == 0
                &&& d.rear_right.current_state.drive == 0
                &&& d.front_left.offset == norm_spec(setup.front_left.angle_offset as int)
                &&& d.front_right.offset == norm_spec(setup.front_right.angle_offset as int)
                &&& d.rear_left.offset == norm_spec(setup.rear_left.angle_offset as int)
                &&& d.rear_right.offset == norm_spec(setup.rear_right.angle_offset as int)
                &&& d.kinematics.positions.front_left.x == config.wheel_base as int / 2
                &&& d.kinematics.positions.front_left.y == config.track_width as int / 2
                &&& d.odometry.pose.x == 0 && d.odometry.pose.y == 0 && d.odometry.pose.heading
                    == 0
                &&& d.odometry.kinematics == d.kinematics
                &&& d.shaper.last_mag == 0 && d.shaper.turn_limiter.value == 0
            },
    {
        if config.track_width < 2 || config.track_width > 2 * OFFSET_LIMIT || config.wheel_base < 2
            || config.wheel_base > 2 * OFFSET_LIMIT {
            return Err(ConfigError::OutOfRange);
        }
        if config.max_velocity <= 0 || config.max_rotation <= 0 {
            return Err(ConfigError::NegativeLimit);
        }
        if config.max_velocity > COORD_LIMIT / 2 || config.max_rotation > TURN_RATE_LIMIT {
            return Err(ConfigError::OutOfRange);
        }
        let half_x = crate::fixed::floor_div(config.wheel_base, 2);
        let half_y = crate::fixed::floor_div(config.track_width, 2);
        proof {
            crate::fixed::lemma_div_abs_bound(config.wheel_base as int, 2, OFFSET_LIMIT as int);
            crate::fixed::lemma_div_abs_bound(config.track_width as int, 2, OFFSET_LIMIT as int);
            assert(0 <= half_x * half_x <= 4_000_000_000_000 && 0 <= half_y * half_y
                <= 4_000_000_000_000) by (nonlinear_arith)
                requires
                    abs_spec(half_x as int) <= OFFSET_LIMIT,
                    abs_spec(half_y as int) <= OFFSET_LIMIT,
                    OFFSET_LIMIT == 2_000_000,
            ;
        }
        if 4 * (half_x * half_x + half_y * half_y) < MIN_EXTENT_SQ {
            return Err(ConfigError::OutOfRange);
        }
        let shaper = match MotionShaper::new(config.shaper, 0) {
            Ok(s) => s,
            Err(e) => {
                return Err(e);
            },
        };
        let positions = module_positions_from_dimensions(config.track_width, config.wheel_base);
        let kinematics = SwerveKinematics::new(positions);
        proof {
            let hx = config.wheel_base as int / 2;
            let hy = config.track_width as int / 2;
            assert(crate::kinematics::extent_sq_spec(positions) == 4 * (hx * hx + hy * hy))
                by (nonlinear_arith)
                requires
                    positions.front_left.x == hx && positions.front_left.y == hy,
                    positions.front_right.x == hx && positions.front_right.y == -hy,
                    positions.rear_left.x == -hx && positions.rear_left.y == hy,
                    positions.rear_right.x == -hx && positions.rear_right.y == -hy,
            ;
            vstd::arithmetic::div_mod::lemma_small_mod(0, TURN_TICKS as nat);
        }
        let odometry = Odometry::new(kinematics, Pose { x: 0, y: 0, heading: 0 });
        Ok(
            Drivetrain {
                front_left: SwerveModule::new(
                    setup.front_left.starting_angle,
                    setup.front_left.angle_offset,
                ),
                front_right: SwerveModule::new(
                    setup.front_right.starting_angle,
                    setup.front_right.angle_offset,
                ),
                rear_left: SwerveModule::new(
                    setup.rear_left.starting_angle,
                    setup.rear_left.angle_offset,
                ),
                rear_right: SwerveModule::new(
                    setup.rear_right.starting_angle,
                    setup.rear_right.angle_offset,
                ),
                kinematics,
                odometry,
                shaper,
                config,
            },
        )
    }

    /// The current pose estimate.
    pub fn get_pose(&self) -> (r: Pose)
        ensures
            r == self.odometry.pose,
    {
        self.odometry.get_pose()
    }

    /// The heading the control loop works with, from a raw sensor reading in
    /// ticks: the sensor counts clockwise, the library counter-clockwise, so
    /// the reading is negated and reduced to the canonical range.
    pub fn get_heading(&self, raw_heading: i64) -> (r: i64)
        requires
            raw_heading > i64::MIN,
        ensures
            r == norm_spec(-raw_heading as int),
            0 <= r < TURN_TICKS,
    {
        normalize_angle(-raw_heading)
    }

    /// Marks every module stopped, the fail-safe bookkeeping that goes with
    /// cutting motor output: the next cycle optimizes against a standstill.
    pub fn stop(&mut self)
        requires
            old(self).wf(),
        ensures
            final(self).wf(),
            final(self).front_left.current_state.angle == old(
                self,
            ).front_left.current_state.angle,
            final(self).front_right.current_state.angle == old(
                self,
            ).front_right.current_state.angle,
            final(self).rear_left.current_state.angle == old(self).rear_left.current_state.angle,
            final(self).rear_right.current_state.angle == old(
                self,
            ).rear_right.current_state.angle,
            final(self).front_left.current_state.drive == 0,
            final(self).front_right.current_state.drive == 0,
            final(self).rear_left.current_state.drive == 0,
            final(self).rear_right.current_state.drive == 0,
            final(self).front_left.offset == old(self).front_left.offset,
            final(self).front_right.offset == old(self).front_right.offset,
            final(self).rear_left.offset == old(self).rear_left.offset,
            final(self).rear_right.offset == old(self).rear_right.offset,
            final(self).kinematics == old(self).kinematics,
            final(self).odometry == old(self).odometry,
            final(self).shaper == old(self).shaper,
            final(self).config == old(self).config,
    {
        self.front_left.stop();
        self.front_right.stop();
        self.rear_left.stop();
        self.rear_right.stop();
    }

    /// One odometry tick, fed with measured module states and the measured
    /// heading: the pose integrates the fused body velocity, and the fused
    /// velocity and fitted rotation rate are returned.
    pub fn update_odometry(&mut self, feedback: ModuleStates, heading: i64, dt: i64) -> (r: (
        Vec2,
        i64,
    ))
        requires
            old(self).wf(),
            crate::kinematics::states_wf(feedback),
            0 <= dt <= DT_LIMIT,
            abs_spec(old(self).odometry.pose.x as int) <= POSE_LIMIT - POSE_STEP,
            abs_spec(old(self).odometry.pose.y as int) <= POSE_LIMIT - POSE_STEP,
        ensures
            final(self).wf(),
            r.0.x == crate::odometry::body_vx_spec(feedback),
            r.0.y == crate::odometry::body_vy_spec(feedback),
            r.1 == crate::odometry::omega_fit_spec(feedback, old(self).kinematics),
            final(self).odometry.pose.x == old(self).odometry.pose.x
                + crate::odometry::travel_spec(
                rot_x_spec(
                    crate::odometry::body_vx_spec(feedback),
                    crate::odometry::body_vy_spec(feedback),
                    norm_spec(heading as int),
                ),
                dt as int,
            ),
            final(self).odometry.pose.y == old(self).odometry.pose.y
                + crate::odometry::travel_spec(
                rot_y_spec(
                    crate::odometry::body_vx_spec(feedback),
                    crate::odometry::body_vy_spec(feedback),
                    norm_spec(heading as int),
                ),
                dt as int,
            ),
            final(self).odometry.pose.heading == norm_spec(heading as int),
            final(self).front_left == old(self).front_left,
            final(self).front_right == old(self).front_right,
            final(self).rear_left == old(self).rear_left,
            final(self).rear_right == old(self).rear_right,
            final(self).kinematics == old(self).kinematics,
            final(self).shaper == old(self).shaper,
            final(self).config == old(self).config,
    {
        self.odometry.update(feedback, heading, dt)
    }

    /// Distributes an already-shaped body command to the four modules: each
    /// gets its inverse-kinematics target vector in polar form, resolved by
    /// its own optimizer against its last commanded angle, and the motor
    /// commands — offset folded into each angle — are returned.
    pub fn set_input_raw(&mut self, drive: Vec2, turn_rate: i64, heading: i64) -> (cmd:
        ModuleStates)
        requires
            old(self).wf(),
            drive.in_bounds(),
            abs_spec(turn_rate as int) <= TURN_RATE_LIMIT,
        ensures
            final(self).wf(),
            ({
                let p = old(self).kinematics.positions;
                let c_fl = commanded_spec(
                    p.front_left,
                    drive.x as int,
                    drive.y as int,
                    turn_rate as int,
                    heading as int,
                    old(self).front_left.current_state.angle as int,
                );
                let c_fr = commanded_spec(
                    p.front_right,
                    drive.x as int,
                    drive.y as int,
                    turn_rate as int,
                    heading as int,
                    old(self).front_right.current_state.angle as int,
                );
                let c_rl = commanded_spec(
                    p.rear_left,
                    drive.x as int,
                    drive.y as int,
                    turn_rate as int,
                    heading as int,
                    old(self).rear_left.current_state.angle as int,
                );
                let c_rr = commanded_spec(
                    p.rear_right,
                    drive.x as int,
                    drive.y as int,
                    turn_rate as int,
                    heading as int,
                    old(self).rear_right.current_state.angle as int,
                );
                &&& final(self).front_left.current_state.angle == c_fl.0
                &&& final(self).front_left.current_state.drive == c_fl.1
                &&& final(self).front_right.current_state.angle == c_fr.0
                &&& final(self).front_right.current_state.drive == c_fr.1
                &&& final(self).rear_left.current_state.angle == c_rl.0
                &&& final(self).rear_left.current_state.drive == c_rl.1
                &&& final(self).rear_right.current_state.angle == c_rr.0
                &&& final(self).rear_right.current_state.drive == c_rr.1
                &&& cmd.front_left.angle == norm_spec(c_fl.0 + old(self).front_left.offset)
                &&& cmd.front_left.drive == c_fl.1
                &&& cmd.front_right.angle == norm_spec(c_fr.0 + old(self).front_right.offset)
                &&& cmd.front_right.drive == c_fr.1
                &&& cmd.rear_left.angle == norm_spec(c_rl.0 + old(self).rear_left.offset)
                &&& cmd.rear_left.drive == c_rl.1
                &&& cmd.rear_right.angle == norm_spec(c_rr.0 + old(self).rear_right.offset)
                &&& cmd.rear_right.drive == c_rr.1
            }),
            final(self).front_left.offset == old(self).front_left.offset,
            final(self).front_right.offset == old(self).front_right.offset,
            final(self).rear_left.offset == old(self).rear_left.offset,
            final(self).rear_right.offset == old(self).rear_right.offset,
            final(self).kinematics == old(self).kinematics,
            final(self).odometry == old(self).odometry,
            final(self).shaper == old(self).shaper,
            final(self).config == old(self).config,
    {
        let vectors = self.kinematics.inverse(drive, turn_rate, heading);
        let t_fl = SwerveState::from_vector(
            vectors.front_left,
            self.front_left.current_state.get_angle(),
        );
        let t_fr = SwerveState::from_vector(
            vectors.front_right,
            self.front_right.current_state.get_angle(),
        );
        let t_rl = SwerveState::from_vector(
            vectors.rear_left,
            self.rear_left.current_state.get_angle(),
        );
        let t_rr = SwerveState::from_vector(
            vectors.rear_right,
            self.rear_right.current_state.get_angle(),
        );
        ModuleStates {
            front_left: self.front_left.set_target(t_fl),
            front_right: self.front_right.set_target(t_fr),
            rear_left: self.rear_left.set_target(t_rl),
            rear_right: self.rear_right.set_target(t_rr),
        }
    }

    /// One full control cycle: scales the normalized input to physical
    /// units, shapes it — shortest-path direction resolution, speed derating
    /// on direction error, adaptive steering rate, slew limits on speed and
    /// turn rate — and hands the shaped command on to the modules, returning
    /// the four motor commands.  A caller with no usable heading reading
    /// passes zero, which degrades cleanly to robot-relative control.
    pub fn set_input(&mut self, drive: Vec2, turn_rate: i64, heading: i64, dt: i64) -> (cmd:
        ModuleStates)
        requires
            old(self).wf(),
            abs_spec(drive.x as int) <= UNIT,
            abs_spec(drive.y as int) <= UNIT,
            abs_spec(turn_rate as int) <= UNIT,
            0 <= dt <= DT_LIMIT,
        ensures
            final(self).wf(),
            ({
                let cfg = old(self).config;
                let sdx = (drive.x as int * cfg.max_velocity as int) / (UNIT as int);
                let sdy = (drive.y as int * cfg.max_velocity as int) / (UNIT as int);
                let t_angle = polar_angle_spec(sdx, sdy, old(self).shaper.last_angle as int);
                let t_mag = magnitude_spec(sdx, sdy);
                let sh = shape_spec(
                    cfg.shaper,
                    old(self).shaper.last_angle as int,
                    old(self).shaper.last_mag as int,
                    t_angle,
                    t_mag,
                    dt as int,
                );
                let ts = (turn_rate as int * cfg.max_rotation as int) / (UNIT as int);
                let sturn = crate::fixed::clamp_spec(
                    ts,
                    old(self).shaper.turn_limiter.value - crate::limiter::max_step_spec(
                        cfg.shaper.turn_rate as int,
                        dt as int,
                    ),
                    old(self).shaper.turn_limiter.value + crate::limiter::max_step_spec(
                        cfg.shaper.turn_rate as int,
                        dt as int,
                    ),
                );
                let dvx = polar_vec_x_spec(sh.0, sh.1);
                let dvy = polar_vec_y_spec(sh.0, sh.1);
                let p = old(self).kinematics.positions;
                let c_fl = commanded_spec(
                    p.front_left,
                    dvx,
                    dvy,
                    sturn,
                    heading as int,
                    old(self).front_left.current_state.angle as int,
                );
                let c_fr = commanded_spec(
                    p.front_right,
                    dvx,
                    dvy,
                    sturn,
                    heading as int,
                    old(self).front_right.current_state.angle as int,
                );
                let c_rl = commanded_spec(
                    p.rear_left,
                    dvx,
                    dvy,
                    sturn,
                    heading as int,
                    old(self).rear_left.current_state.angle as int,
                );
                let c_rr = commanded_spec(
                    p.rear_right,
                    dvx,
                    dvy,
                    sturn,
                    heading as int,
                    old(self).rear_right.current_state.angle as int,
                );
                &&& final(self).shaper.last_angle == sh.0
                &&& final(self).shaper.last_mag == sh.1
                &&& final(self).shaper.turn_limiter.value == sturn
                &&& final(self).front_left.current_state.angle == c_fl.0
                &&& final(self).front_left.current_state.drive == c_fl.1
                &&& final(self).front_right.current_state.angle == c_fr.0
                &&& final(self).front_right.current_state.drive == c_fr.1
                &&& final(self).rear_left.current_state.angle == c_rl.0
                &&& final(self).rear_left.current_state.drive == c_rl.1
                &&& final(self).rear_right.current_state.angle == c_rr.0
                &&& final(self).rear_right.current_state.drive == c_rr.1
                &&& cmd.front_left.angle == norm_spec(c_fl.0 + old(self).front_left.offset)
                &&& cmd.front_left.drive == c_fl.1
                &&& cmd.front_right.angle == norm_spec(c_fr.0 + old(self).front_right.offset)
                &&& cmd.front_right.drive == c_fr.1
                &&& cmd.rear_left.angle == norm_spec(c_rl.0 + old(self).rear_left.offset)
                &&& cmd.rear_left.drive == c_rl.1
                &&& cmd.rear_right.angle == norm_spec(c_rr.0 + old(self).rear_right.offset)
                &&& cmd.rear_right.drive == c_rr.1
            }),
            final(self).kinematics == old(self).kinematics,
            final(self).odometry == old(self).odometry,
            final(self).config == old(self).config,
    {
        let mv = self.config.max_velocity;
        let mr = self.config.max_rotation;
        proof {
            assert(abs_spec(drive.x as int * mv as int) <= mv * UNIT && abs_spec(
                drive.y as int * mv as int,
            ) <= mv * UNIT && abs_spec(turn_rate as int * mr as int) <= mr * UNIT)
                by (nonlinear_arith)
                requires
                    abs_spec(drive.x as int) <= UNIT,
                    abs_spec(drive.y as int) <= UNIT,
                    abs_spec(turn_rate as int) <= UNIT,
                    0 < mv,
                    0 < mr,
            ;
            lemma_div_unit_bound(drive.x as int * mv as int, mv as int);
            lemma_div_unit_bound(drive.y as int * mv as int, mv as int);
            lemma_div_unit_bound(turn_rate as int * mr as int, mr as int);
        }
        let scaled = drive.scale(mv);
        let turn_scaled = mul_div_unit(turn_rate, mr);
        let target = SwerveState::from_vector(scaled, self.shaper.last_angle);
        proof {
            assert(target.drive <= 2 * mv) by (nonlinear_arith)
                requires
                    target.drive >= 0,
                    target.drive * target.drive <= scaled.x * scaled.x + scaled.y * scaled.y,
                    abs_spec(scaled.x as int) <= mv as int,
                    abs_spec(scaled.y as int) <= mv as int,
                    0 < mv,
            ;
        }
        let (shaped, shaped_turn) = self.shaper.shape(target, turn_scaled, dt);
        proof {
            crate::shaper::lemma_shape_keeps_mag_bound(
                self.config.shaper,
                old(self).shaper.last_angle as int,
                old(self).shaper.last_mag as int,
                target.angle as int,
                target.drive as int,
                dt as int,
                2 * self.config.max_velocity as int,
            );
            crate::shaper::lemma_max_step_nonneg(
                self.config.shaper.turn_rate as int,
                dt as int,
            );
            crate::fixed::lemma_clamp_abs_bound(
                turn_scaled as int,
                old(self).shaper.turn_limiter.value as int,
                crate::limiter::max_step_spec(self.config.shaper.turn_rate as int, dt as int),
                self.config.max_rotation as int,
            );
        }
        let drive_vec = shaped.to_vector();
        self.set_input_raw(drive_vec, shaped_turn, heading)
    }

    /// Commands the braking stance: each wheel turned along the line from
    /// the robot center to its mounting point at zero speed, each target
    /// resolved by that module's optimizer, and the four motor commands
    /// returned.
    pub fn brake(&mut self) -> (cmd: ModuleStates)
        requires
            old(self).wf(),
        ensures
            final(self).wf(),
            ({
                let p = old(self).kinematics.positions;
                let c_fl = optimize_spec(
                    crate::trig::vec_angle_spec(p.front_left.x as int, p.front_left.y as int),
                    0,
                    old(self).front_left.current_state.angle as int,
                );
                let c_fr = optimize_spec(
                    crate::trig::vec_angle_spec(p.front_right.x as int, p.front_right.y as int),
                    0,
                    old(self).front_right.current_state.angle as int,
                );
                let c_rl = optimize_spec(
                    crate::trig::vec_angle_spec(p.rear_left.x as int, p.rear_left.y as int),
                    0,
                    old(self).rear_left.current_state.angle as int,
                );
                let c_rr = optimize_spec(
                    crate::trig::vec_angle_spec(p.rear_right.x as int, p.rear_right.y as int),
                    0,
                    old(self).rear_right.current_state.angle as int,
                );
                &&& final(self).front_left.current_state.angle == c_fl.0
                &&& final(self).front_left.current_state.drive == c_fl.1
                &&& final(self).front_right.current_state.angle == c_fr.0
                &&& final(self).front_right.current_state.drive == c_fr.1
                &&& final(self).rear_left.current_state.angle == c_rl.0
                &&& final(self).rear_left.current_state.drive == c_rl.1
                &&& final(self).rear_right.current_state.angle == c_rr.0
                &&& final(self).rear_right.current_state.drive == c_rr.1
                &&& cmd.front_left.angle == norm_spec(c_fl.0 + old(self).front_left.offset)
                &&& cmd.front_left.drive == c_fl.1
                &&& cmd.front_right.angle == norm_spec(c_fr.0 + old(self).front_right.offset)
                &&& cmd.front_right.drive == c_fr.1
                &&& cmd.rear_left.angle == norm_spec(c_rl.0 + old(self).rear_left.offset)
                &&& cmd.rear_left.drive == c_rl.1
                &&& cmd.rear_right.angle == norm_spec(c_rr.0 + old(self).rear_right.offset)
                &&& cmd.rear_right.drive == c_rr.1
            }),
            final(self).kinematics == old(self).kinematics,
            final(self).odometry == old(self).odometry,
            final(self).shaper == old(self).shaper,
            final(self).config == old(self).config,
    {
        let stance = self.kinematics.brake();
        ModuleStates {
            front_left: self.front_left.set_target(stance.front_left),
            front_right: self.front_right.set_target(stance.front_right),
            rear_left: self.rear_left.set_target(stance.rear_left),
            rear_right: self.rear_right.set_target(stance.rear_right),
        }
    }
}

} // verus!

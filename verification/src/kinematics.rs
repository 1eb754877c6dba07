//! Inverse and forward kinematics of the four-module base.
//!
//! Inverse kinematics turns a body-frame drive vector, a turn rate and a
//! heading into one required velocity vector per module: the drive rotated
//! into the robot frame, plus the tangential contribution of the rotation at
//! that module's mounting point.  Forward kinematics is the dual: from four
//! measured module vectors it recovers the body velocity as their mean and
//! the rotation rate as a least-squares fit against the lever arms.

use vstd::prelude::*;
use crate::angle::{norm_spec, normalize_angle, TURN_TICKS};
use crate::fixed::{abs_spec, floor_div, floor_div_wide, lemma_div_abs_bound,
    lemma_div_unit_bound, mul_div_unit, wide_mul, COORD_LIMIT, UNIT};
use crate::trig::{vec_angle, vec_angle_spec};
use crate::types::{SwerveState, SPEED_LIMIT};
use crate::vector::Vec2;

verus! {

/// The farthest a module may be mounted from the robot center: two whole
/// units of length.
pub const OFFSET_LIMIT: i64 = 2_000_000;

/// The fastest rotation rate inverse kinematics accepts, micro-radians per
/// second.
pub const TURN_RATE_LIMIT: i64 = 500_000_000;

/// The least spread of squared module offsets the library accepts: the
/// lever arms must give the rotation fit a usable denominator.
pub const MIN_EXTENT_SQ: i64 = 1_000_000_000;

/// One velocity vector, or position, per module.
#[derive(Clone, Copy, Debug, PartialEq, Eq, Structural)]
pub struct ModuleVectors {
    pub front_left: Vec2,
    pub front_right: Vec2,
    pub rear_left: Vec2,
    pub rear_right: Vec2,
}

/// One polar command per module.
#[derive(Clone, Copy, Debug, PartialEq, Eq, Structural)]
pub struct ModuleStates {
    pub front_left: SwerveState,
    pub front_right: SwerveState,
    pub rear_left: SwerveState,
    pub rear_right: SwerveState,
}

/// All four measured states carry speeds the library can compute over.
pub open spec fn states_wf(f: ModuleStates) -> bool {
    &&& f.front_left.wf()
    &&& f.front_right.wf()
    &&& f.rear_left.wf()
    &&& f.rear_right.wf()
}

/// The x component of the tangential velocity a turn rate `t` produces at
/// the mounting point `pos`: the lever arm turned a quarter turn and scaled.
pub open spec fn tangential_x_spec(pos: Vec2, t: int) -> int {
    ((-pos.y) as int * t) / (UNIT as int)
}

/// The y component of the tangential velocity at `pos`.
pub open spec fn tangential_y_spec(pos: Vec2, t: int) -> int {
    (pos.x as int * t) / (UNIT as int)
}

/// The sum of squared offset components over the four modules: the
/// denominator of the rotation-rate fit.
pub open spec fn extent_sq_spec(p: ModuleVectors) -> int {
    p.front_left.x as int * p.front_left.x as int + p.front_left.y as int * p.front_left.y as int
        + p.front_right.x as int * p.front_right.x as int + p.front_right.y as int
        * p.front_right.y as int + p.rear_left.x as int * p.rear_left.x as int
        + p.rear_left.y as int * p.rear_left.y as int + p.rear_right.x as int
        * p.rear_right.x as int + p.rear_right.y as int * p.rear_right.y as int
}

/// The moment one module vector contributes to the rotation fit: its dot
/// product with the quarter-turned lever arm.
pub open spec fn moment_spec(v: Vec2, pos: Vec2) -> int {
    v.x as int * (-pos.y) as int + v.y as int * pos.x as int
}

/// One mounting point is in range, off the robot center.
pub open spec fn offset_wf(pos: Vec2) -> bool {
    &&& abs_spec(pos.x as int) <= OFFSET_LIMIT
    &&& abs_spec(pos.y as int) <= OFFSET_LIMIT
    &&& !(pos.x == 0 && pos.y == 0)
}

/// The fixed geometry of the base: where each module is mounted, relative
/// to the robot center.
#[derive(Clone, Copy, Debug, PartialEq, Eq, Structural)]
pub struct SwerveKinematics {
    pub positions: ModuleVectors,
}

/// The mounting points of a rectangular base: `track_width` across (the y
/// spread), `wheel_base` fore to aft (the x spread), centered on the robot,
/// with x forward and y leftward.
pub fn module_positions_from_dimensions(track_width: i64, wheel_base: i64) -> (r: ModuleVectors)
    requires
        2 <= track_width <= 2 * OFFSET_LIMIT,
        2 <= wheel_base <= 2 * OFFSET_LIMIT,
    ensures
        r.front_left.x == wheel_base as int / 2 && r.front_left.y == track_width as int / 2,
        r.front_right.x == wheel_base as int / 2 && r.front_right.y == -(track_width as int / 2),
        r.rear_left.x == -(wheel_base as int / 2) && r.rear_left.y == track_width as int / 2,
        r.rear_right.x == -(wheel_base as int / 2) && r.rear_right.y == -(track_width as int / 2),
        offset_wf(r.front_left) && offset_wf(r.front_right) && offset_wf(r.rear_left) && offset_wf(
            r.rear_right,
        ),
{
    let half_x = floor_div(wheel_base, 2);
    let half_y = floor_div(track_width, 2);
    proof {
        lemma_div_abs_bound(wheel_base as int, 2, OFFSET_LIMIT as int);
        lemma_div_abs_bound(track_width as int, 2, OFFSET_LIMIT as int);
        vstd::arithmetic::div_mod::lemma_div_is_ordered(2, wheel_base as int, 2);
        vstd::arithmetic::div_mod::lemma_div_is_ordered(2, track_width as int, 2);
    }
    ModuleVectors {
        front_left: Vec2 { x: half_x, y: half_y },
        front_right: Vec2 { x: half_x, y: -half_y },
        rear_left: Vec2 { x: -half_x, y: half_y },
        rear_right: Vec2 { x: -half_x, y: -half_y },
    }
}

impl SwerveKinematics {
    /// Every mounting point is in range and off the robot center, and the
    /// four of them spread widely enough for the rotation fit.
    pub open spec fn wf(self) -> bool {
        &&& offset_wf(self.positions.front_left)
        &&& offset_wf(self.positions.front_right)
        &&& offset_wf(self.positions.rear_left)
        &&& offset_wf(self.positions.rear_right)
        &&& extent_sq_spec(self.positions) >= MIN_EXTENT_SQ
    }

    /// The base with the given mounting points.
    pub fn new(positions: ModuleVectors) -> (r: SwerveKinematics)
        ensures
            r.positions == positions,
    {
        SwerveKinematics { positions }
    }

    /// One required velocity vector per module: the body drive turned by the
    /// negated heading into the robot frame — so the drive command keeps its
    /// field meaning whatever way the robot faces — plus the tangential
    /// velocity of the base's rotation at that module's mounting point.
    pub fn inverse(&self, drive: Vec2, turn_rate: i64, heading: i64) -> (r: ModuleVectors)
        requires
            self.wf(),
            drive.in_bounds(),
            abs_spec(turn_rate as int) <= TURN_RATE_LIMIT,
        ensures
            ({
                let na = TURN_TICKS - norm_spec(heading as int);
                let rx = crate::vector::rot_x_spec(drive.x as int, drive.y as int, na);
                let ry = crate::vector::rot_y_spec(drive.x as int, drive.y as int, na);
                &&& r.front_left.x == rx + tangential_x_spec(
                    self.positions.front_left,
                    turn_rate as int,
                )
                &&& r.front_left.y == ry + tangential_y_spec(
                    self.positions.front_left,
                    turn_rate as int,
                )
                &&& r.front_right.x == rx + tangential_x_spec(
                    self.positions.front_right,
                    turn_rate as int,
                )
                &&& r.front_right.y == ry + tangential_y_spec(
                    self.positions.front_right,
                    turn_rate as int,
                )
                &&& r.rear_left.x == rx + tangential_x_spec(
                    self.positions.rear_left,
                    turn_rate as int,
                )
                &&& r.rear_left.y == ry + tangential_y_spec(
                    self.positions.rear_left,
                    turn_rate as int,
                )
                &&& r.rear_right.x == rx + tangential_x_spec(
                    self.positions.rear_right,
                    turn_rate as int,
                )
                &&& r.rear_right.y == ry + tangential_y_spec(
                    self.positions.rear_right,
                    turn_rate as int,
                )
            }),
            abs_spec(r.front_left.x as int) <= 3_000_000_000,
            abs_spec(r.front_left.y as int) <= 3_000_000_000,
            abs_spec(r.front_right.x as int) <= 3_000_000_000,
            abs_spec(r.front_right.y as int) <= 3_000_000_000,
            abs_spec(r.rear_left.x as int) <= 3_000_000_000,
            abs_spec(r.rear_left.y as int) <= 3_000_000_000,
            abs_spec(r.rear_right.x as int) <= 3_000_000_000,
            abs_spec(r.rear_right.y as int) <= 3_000_000_000,
    {
        let na = TURN_TICKS - normalize_angle(heading);
        let rotated = drive.rotate(na);
        ModuleVectors {
            front_left: rotated.add(tangential(self.positions.front_left, turn_rate)),
            front_right: rotated.add(tangential(self.positions.front_right, turn_rate)),
            rear_left: rotated.add(tangential(self.positions.rear_left, turn_rate)),
            rear_right: rotated.add(tangential(self.positions.rear_right, turn_rate)),
        }
    }

    /// The braking stance: every wheel aligned with the line from the robot
    /// center to its own mounting point, at zero speed, locking the base
    /// against pushes.
    pub fn brake(&self) -> (r: ModuleStates)
        requires
            self.wf(),
        ensures
            r.front_left.angle == vec_angle_spec(
                self.positions.front_left.x as int,
                self.positions.front_left.y as int,
            ),
            r.front_right.angle == vec_angle_spec(
                self.positions.front_right.x as int,
                self.positions.front_right.y as int,
            ),
            r.rear_left.angle == vec_angle_spec(
                self.positions.rear_left.x as int,
                self.positions.rear_left.y as int,
            ),
            r.rear_right.angle == vec_angle_spec(
                self.positions.rear_right.x as int,
                self.positions.rear_right.y as int,
            ),
            r.front_left.drive == 0 && r.front_right.drive == 0 && r.rear_left.drive == 0
                && r.rear_right.drive == 0,
    {
        ModuleStates {
            front_left: SwerveState {
                angle: vec_angle(self.positions.front_left.x, self.positions.front_left.y),
                drive: 0,
            },
            front_right: SwerveState {
                angle: vec_angle(self.positions.front_right.x, self.positions.front_right.y),
                drive: 0,
            },
            rear_left: SwerveState {
                angle: vec_angle(self.positions.rear_left.x, self.positions.rear_left.y),
                drive: 0,
            },
            rear_right: SwerveState {
                angle: vec_angle(self.positions.rear_right.x, self.positions.rear_right.y),
                drive: 0,
            },
        }
    }

    /// The body motion that best explains four measured module vectors: the
    /// translation as their mean, the rotation rate as the least-squares
    /// ratio of summed moments to summed squared lever arms.
    pub fn forward(&self, v: ModuleVectors) -> (r: (Vec2, i64))
        requires
            self.wf(),
            abs_spec(v.front_left.x as int) <= SPEED_LIMIT,
            abs_spec(v.front_left.y as int) <= SPEED_LIMIT,
            abs_spec(v.front_right.x as int) <= SPEED_LIMIT,
            abs_spec(v.front_right.y as int) <= SPEED_LIMIT,
            abs_spec(v.rear_left.x as int) <= SPEED_LIMIT,
            abs_spec(v.rear_left.y as int) <= SPEED_LIMIT,
            abs_spec(v.rear_right.x as int) <= SPEED_LIMIT,
            abs_spec(v.rear_right.y as int) <= SPEED_LIMIT,
        ensures
            r.0.x == (v.front_left.x + v.front_right.x + v.rear_left.x + v.rear_right.x) / 4,
            r.0.y == (v.front_left.y + v.front_right.y + v.rear_left.y + v.rear_right.y) / 4,
            r.1 == (UNIT * (moment_spec(v.front_left, self.positions.front_left) + moment_spec(
                v.front_right,
                self.positions.front_right,
            ) + moment_spec(v.rear_left, self.positions.rear_left) + moment_spec(
                v.rear_right,
                self.positions.rear_right,
            ))) / extent_sq_spec(self.positions),
            abs_spec(r.0.x as int) <= SPEED_LIMIT,
            abs_spec(r.0.y as int) <= SPEED_LIMIT,
            abs_spec(r.1 as int) <= 80_000_000_000_000,
    {
        let sum_x = v.front_left.x + v.front_right.x + v.rear_left.x + v.rear_right.x;
        let sum_y = v.front_left.y + v.front_right.y + v.rear_left.y + v.rear_right.y;
        proof {
            lemma_div_abs_bound(sum_x as int, 4, SPEED_LIMIT as int);
            lemma_div_abs_bound(sum_y as int, 4, SPEED_LIMIT as int);
        }
        let mean = Vec2 { x: floor_div(sum_x, 4), y: floor_div(sum_y, 4) };
        let moments: i128 = moment(v.front_left, self.positions.front_left) + moment(
            v.front_right,
            self.positions.front_right,
        ) + moment(v.rear_left, self.positions.rear_left) + moment(
            v.rear_right,
            self.positions.rear_right,
        );
        let extent: i128 = extent_sq(self.positions);
        let num: i128 = (UNIT as i128) * moments;
        proof {
            assert(abs_spec(num as int) <= 80_000_000_000_000 * extent) by (nonlinear_arith)
                requires
                    num == UNIT as int * moments,
                    abs_spec(moments as int) <= 80_000_000_000_000_000,
                    extent >= MIN_EXTENT_SQ,
                    UNIT == 1_000_000,
                    MIN_EXTENT_SQ == 1_000_000_000,
            ;
            lemma_div_abs_bound(num as int, extent as int, 80_000_000_000_000);
        }
        let omega = floor_div_wide(num, extent) as i64;
        (mean, omega)
    }
}

/// Rotating by one whole turn moves nothing.
pub proof fn lemma_rotate_full_turn(x: int, y: int)
    ensures
        crate::vector::rot_x_spec(x, y, TURN_TICKS as int) == x,
        crate::vector::rot_y_spec(x, y, TURN_TICKS as int) == y,
{
    let t = TURN_TICKS as int;
    let q = crate::angle::QUARTER_TURN as int;
    vstd::arithmetic::div_mod::lemma_mod_self_0(t);
    crate::trig::lemma_sin_zero();
    assert(norm_spec(t) == norm_spec(0)) by {
        vstd::arithmetic::div_mod::lemma_small_mod(0, TURN_TICKS as nat);
    }
    assert(crate::trig::sin_spec(t) == crate::trig::sin_spec(0));
    vstd::arithmetic::div_mod::lemma_mod_multiples_vanish(1, q, t);
    vstd::arithmetic::div_mod::lemma_small_mod(q as nat, t as nat);
    crate::trig::lemma_cos_zero();
    let u = UNIT as int;
    assert(x * u - y * 0 == u * x) by (nonlinear_arith);
    assert(x * 0 + y * u == u * y) by (nonlinear_arith);
    vstd::arithmetic::div_mod::lemma_div_multiples_vanish(x, u);
    vstd::arithmetic::div_mod::lemma_div_multiples_vanish(y, u);
}

/// A zero turn rate contributes nothing at any mounting point.
pub proof fn lemma_tangential_zero(pos: Vec2)
    ensures
        tangential_x_spec(pos, 0) == 0,
        tangential_y_spec(pos, 0) == 0,
{
    let u = UNIT as int;
    assert((-pos.y) as int * 0 == u * 0) by (nonlinear_arith);
    assert(pos.x as int * 0 == u * 0) by (nonlinear_arith);
    vstd::arithmetic::div_mod::lemma_div_multiples_vanish(0, u);
}

/// With a zero turn rate and a zero heading, inverse kinematics asks every
/// module for exactly the body drive vector: the per-module target the
/// `inverse` contract gives reduces to `(drive.x, drive.y)` at each of the
/// four mounting points.
pub proof fn lemma_inverse_uniform_without_turn(drive: Vec2, pos: Vec2)
    ensures
        ({
            let na = TURN_TICKS - norm_spec(0);
            crate::vector::rot_x_spec(drive.x as int, drive.y as int, na) + tangential_x_spec(
                pos,
                0,
            ) == drive.x
        }),
        ({
            let na = TURN_TICKS - norm_spec(0);
            crate::vector::rot_y_spec(drive.x as int, drive.y as int, na) + tangential_y_spec(
                pos,
                0,
            ) == drive.y
        }),
{
    vstd::arithmetic::div_mod::lemma_small_mod(0, TURN_TICKS as nat);
    lemma_rotate_full_turn(drive.x as int, drive.y as int);
    lemma_tangential_zero(pos);
}

/// The tangential velocity of the base's rotation at `pos`.
fn tangential(pos: Vec2, turn_rate: i64) -> (r: Vec2)
    requires
        abs_spec(pos.x as int) <= OFFSET_LIMIT,
        abs_spec(pos.y as int) <= OFFSET_LIMIT,
        abs_spec(turn_rate as int) <= TURN_RATE_LIMIT,
    ensures
        r.x == tangential_x_spec(pos, turn_rate as int),
        r.y == tangential_y_spec(pos, turn_rate as int),
        abs_spec(r.x as int) <= COORD_LIMIT,
        abs_spec(r.y as int) <= COORD_LIMIT,
{
    proof {
        assert(abs_spec((-pos.y) as int * turn_rate as int) <= COORD_LIMIT * UNIT && abs_spec(
            pos.x as int * turn_rate as int,
        ) <= COORD_LIMIT * UNIT) by (nonlinear_arith)
            requires
                abs_spec(pos.x as int) <= OFFSET_LIMIT,
                abs_spec(pos.y as int) <= OFFSET_LIMIT,
                abs_spec(turn_rate as int) <= TURN_RATE_LIMIT,
                OFFSET_LIMIT == 2_000_000,
                TURN_RATE_LIMIT == 500_000_000,
                COORD_LIMIT == 1_000_000_000,
                UNIT == 1_000_000,
        ;
        lemma_div_unit_bound((-pos.y) as int * turn_rate as int, COORD_LIMIT as int);
        lemma_div_unit_bound(pos.x as int * turn_rate as int, COORD_LIMIT as int);
    }
    Vec2 { x: mul_div_unit(-pos.y, turn_rate), y: mul_div_unit(pos.x, turn_rate) }
}

/// One module's moment about the robot center, in a wide register.
fn moment(v: Vec2, pos: Vec2) -> (r: i128)
    requires
        abs_spec(v.x as int) <= SPEED_LIMIT,
        abs_spec(v.y as int) <= SPEED_LIMIT,
        abs_spec(pos.x as int) <= OFFSET_LIMIT,
        abs_spec(pos.y as int) <= OFFSET_LIMIT,
    ensures
        r == moment_spec(v, pos),
        abs_spec(r as int) <= 20_000_000_000_000_000,
{
    proof {
        assert(abs_spec(v.x as int * (-pos.y) as int + v.y as int * pos.x as int)
            <= 20_000_000_000_000_000) by (nonlinear_arith)
            requires
                abs_spec(v.x as int) <= SPEED_LIMIT,
                abs_spec(v.y as int) <= SPEED_LIMIT,
                abs_spec(pos.x as int) <= OFFSET_LIMIT,
                abs_spec(pos.y as int) <= OFFSET_LIMIT,
                SPEED_LIMIT == 5_000_000_000,
                OFFSET_LIMIT == 2_000_000,
        ;
    }
    wide_mul(v.x, -pos.y) + wide_mul(v.y, pos.x)
}

/// The summed squared lever arms, in a wide register.
fn extent_sq(p: ModuleVectors) -> (r: i128)
    requires
        abs_spec(p.front_left.x as int) <= OFFSET_LIMIT,
        abs_spec(p.front_left.y as int) <= OFFSET_LIMIT,
        abs_spec(p.front_right.x as int) <= OFFSET_LIMIT,
        abs_spec(p.front_right.y as int) <= OFFSET_LIMIT,
        abs_spec(p.rear_left.x as int) <= OFFSET_LIMIT,
        abs_spec(p.rear_left.y as int) <= OFFSET_LIMIT,
        abs_spec(p.rear_right.x as int) <= OFFSET_LIMIT,
        abs_spec(p.rear_right.y as int) <= OFFSET_LIMIT,
    ensures
        r == extent_sq_spec(p),
        0 <= r <= 32_000_000_000_000,
{
    proof {
        assert forall|a: int| abs_spec(a) <= OFFSET_LIMIT implies 0 <= a * a
            <= 4_000_000_000_000 by {
            assert(0 <= a * a <= 4_000_000_000_000) by (nonlinear_arith)
                requires
                    abs_spec(a) <= 2_000_000,
            ;
        }
    }
    wide_mul(p.front_left.x, p.front_left.x) + wide_mul(p.front_left.y, p.front_left.y) + wide_mul(
        p.front_right.x,
        p.front_right.x,
    ) + wide_mul(p.front_right.y, p.front_right.y) + wide_mul(p.rear_left.x, p.rear_left.x)
        + wide_mul(p.rear_left.y, p.rear_left.y) + wide_mul(p.rear_right.x, p.rear_right.x)
        + wide_mul(p.rear_right.y, p.rear_right.y)
}

} // verus!

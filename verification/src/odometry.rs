//! Dead-reckoning pose estimation from module feedback and a heading.
//!
//! Each update turns the four measured polar module states into vectors,
//! recovers the body velocity and rotation rate by forward kinematics,
//! rotates the body velocity into the field frame with the measured heading,
//! and accumulates it into the stored pose.  The heading itself is stored as
//! measured, never integrated: the heading sensor beats wheel-derived yaw.

use vstd::prelude::*;
use crate::angle::{norm_spec, normalize_angle, TURN_TICKS};
use crate::fixed::{abs_spec, floor_div_wide, lemma_div_unit_bound, wide_mul, UNIT};
use crate::kinematics::{extent_sq_spec, states_wf, ModuleStates, ModuleVectors,
    SwerveKinematics};
use crate::limiter::DT_LIMIT;
use crate::types::{state_vec_x_spec, state_vec_y_spec, SwerveState, SPEED_LIMIT};
use crate::vector::{rot_x_spec, rot_y_spec, Vec2};

verus! {

/// The farthest coordinate the pose may reach: a million whole units.
pub const POSE_LIMIT: i64 = 1_000_000_000_000;

/// More than the position can move in one update.
pub const POSE_STEP: i64 = 100_000_000_000;

/// A planar pose: a position in micro-units and a heading in ticks.
#[derive(Clone, Copy, Debug, PartialEq, Eq, Structural)]
pub struct Pose {
    pub x: i64,
    pub y: i64,
    pub heading: i64,
}

/// The x component of the body velocity four module states report: the mean
/// of their vectors.
pub open spec fn body_vx_spec(f: ModuleStates) -> int {
    (state_vec_x_spec(f.front_left) + state_vec_x_spec(f.front_right) + state_vec_x_spec(
        f.rear_left,
    ) + state_vec_x_spec(f.rear_right)) / 4
}

/// The y component of the body velocity four module states report.
pub open spec fn body_vy_spec(f: ModuleStates) -> int {
    (state_vec_y_spec(f.front_left) + state_vec_y_spec(f.front_right) + state_vec_y_spec(
        f.rear_left,
    ) + state_vec_y_spec(f.rear_right)) / 4
}

/// The moment one measured module state contributes to the rotation fit.
pub open spec fn state_moment_spec(s: SwerveState, pos: Vec2) -> int {
    state_vec_x_spec(s) * (-pos.y) as int + state_vec_y_spec(s) * pos.x as int
}

/// The rotation rate that best explains four measured module states over
/// the given geometry.
pub open spec fn omega_fit_spec(f: ModuleStates, k: SwerveKinematics) -> int {
    (UNIT * (state_moment_spec(f.front_left, k.positions.front_left) + state_moment_spec(
        f.front_right,
        k.positions.front_right,
    ) + state_moment_spec(f.rear_left, k.positions.rear_left) + state_moment_spec(
        f.rear_right,
        k.positions.rear_right,
    ))) / extent_sq_spec(k.positions)
}

/// How far one velocity component carries the pose over `dt` micro-seconds.
pub open spec fn travel_spec(v: int, dt: int) -> int {
    (v * dt) / (UNIT as int)
}

/// The odometry integrator: the base geometry and the running pose.
#[derive(Clone, Copy, Debug, PartialEq, Eq, Structural)]
pub struct Odometry {
    pub kinematics: SwerveKinematics,
    pub pose: Pose,
}

impl Odometry {
    /// The geometry is usable and the pose is canonical and in range.
    pub open spec fn wf(self) -> bool {
        &&& self.kinematics.wf()
        &&& abs_spec(self.pose.x as int) <= POSE_LIMIT
        &&& abs_spec(self.pose.y as int) <= POSE_LIMIT
        &&& 0 <= self.pose.heading < TURN_TICKS
    }

    /// An integrator over the given geometry, starting from the given pose
    /// with its heading reduced to the canonical range.
    pub fn new(kinematics: SwerveKinematics, initial: Pose) -> (r: Odometry)
        requires
            kinematics.wf(),
            abs_spec(initial.x as int) <= POSE_LIMIT,
            abs_spec(initial.y as int) <= POSE_LIMIT,
        ensures
            r.kinematics == kinematics,
            r.pose.x == initial.x,
            r.pose.y == initial.y,
            r.pose.heading == norm_spec(initial.heading as int),
            r.wf(),
    {
        Odometry {
            kinematics,
            pose: Pose { x: initial.x, y: initial.y, heading: normalize_angle(initial.heading) },
        }
    }

    /// The current pose estimate.
    pub fn get_pose(&self) -> (r: Pose)
        ensures
            r == self.pose,
    {
        self.pose
    }

    /// One integration step: fuses the four measured module states and the
    /// measured heading into the pose, and returns the body velocity and the
    /// fitted rotation rate.  The position advances by the field-frame body
    /// velocity integrated over `dt`; the heading is stored as measured.
    pub fn update(&mut self, feedback: ModuleStates, heading: i64, dt: i64) -> (r: (Vec2, i64))
        requires
            old(self).wf(),
            states_wf(feedback),
            0 <= dt <= DT_LIMIT,
            abs_spec(old(self).pose.x as int) <= POSE_LIMIT - POSE_STEP,
            abs_spec(old(self).pose.y as int) <= POSE_LIMIT - POSE_STEP,
        ensures
            final(self).wf(),
            final(self).kinematics == old(self).kinematics,
            r.0.x == body_vx_spec(feedback),
            r.0.y == body_vy_spec(feedback),
            r.1 == omega_fit_spec(feedback, old(self).kinematics),
            final(self).pose.x == old(self).pose.x + travel_spec(
                rot_x_spec(body_vx_spec(feedback), body_vy_spec(feedback), norm_spec(heading as int)),
                dt as int,
            ),
            final(self).pose.y == old(self).pose.y + travel_spec(
                rot_y_spec(body_vx_spec(feedback), body_vy_spec(feedback), norm_spec(heading as int)),
                dt as int,
            ),
            final(self).pose.heading == norm_spec(heading as int),
    {
        let vectors = ModuleVectors {
            front_left: feedback.front_left.to_vector(),
            front_right: feedback.front_right.to_vector(),
            rear_left: feedback.rear_left.to_vector(),
            rear_right: feedback.rear_right.to_vector(),
        };
        let (v, omega) = self.kinematics.forward(vectors);
        let hn = normalize_angle(heading);
        let field_v = v.rotate(hn);
        let dx = travel(field_v.x, dt);
        let dy = travel(field_v.y, dt);
        self.pose = Pose { x: self.pose.x + dx, y: self.pose.y + dy, heading: hn };
        (v, omega)
    }
}

/// Where the x coordinate stands after `n` equal integration steps.
pub open spec fn straight_pose_x_spec(x0: int, v: int, dt: int, n: nat) -> int
    decreases n,
{
    if n == 0 {
        x0
    } else {
        straight_pose_x_spec(x0, v, dt, (n - 1) as nat) + travel_spec(v, dt)
    }
}

/// Equal steps add up linearly: after `n` of them the x coordinate stands
/// `n` times one step's travel from where it began.
pub proof fn lemma_straight_pose_linear(x0: int, v: int, dt: int, n: nat)
    ensures
        straight_pose_x_spec(x0, v, dt, n) == x0 + n * travel_spec(v, dt),
    decreases n,
{
    let t = travel_spec(v, dt);
    if n > 0 {
        lemma_straight_pose_linear(x0, v, dt, (n - 1) as nat);
        assert((n - 1) * t + t == n * t) by (nonlinear_arith);
    } else {
        assert(n * t == 0) by (nonlinear_arith)
            requires
                n == 0,
        ;
    }
}

/// The straight-line law: four modules all pointing along the x axis at a
/// common speed `v`, under a zero heading, report the body velocity `(v, 0)`
/// — so each update advances the pose's x by exactly one step's travel,
/// leaves y where it was, and keeps the heading at zero, and `n` such
/// updates advance x by `n` steps.  At a speed of one whole unit each step's
/// travel is exactly `dt`.
pub proof fn lemma_odometry_straight_line(f: ModuleStates, v: int, dt: int, n: nat, x0: int)
    requires
        f.front_left.angle == 0 && f.front_left.drive == v,
        f.front_right.angle == 0 && f.front_right.drive == v,
        f.rear_left.angle == 0 && f.rear_left.drive == v,
        f.rear_right.angle == 0 && f.rear_right.drive == v,
        0 <= v,
    ensures
        body_vx_spec(f) == v,
        body_vy_spec(f) == 0,
        norm_spec(0) == 0,
        travel_spec(rot_x_spec(body_vx_spec(f), body_vy_spec(f), norm_spec(0)), dt) == travel_spec(
            v,
            dt,
        ),
        travel_spec(rot_y_spec(body_vx_spec(f), body_vy_spec(f), norm_spec(0)), dt) == 0,
        straight_pose_x_spec(x0, v, dt, n) == x0 + n * travel_spec(v, dt),
        v == UNIT ==> travel_spec(v, dt) == dt,
{
    let u = UNIT as int;
    vstd::arithmetic::div_mod::lemma_small_mod(0, TURN_TICKS as nat);
    crate::trig::lemma_cos_zero();
    crate::trig::lemma_sin_zero();
    assert(state_vec_x_spec(f.front_left) == v) by {
        assert(v * u == u * v) by (nonlinear_arith);
        vstd::arithmetic::div_mod::lemma_div_multiples_vanish(v, u);
    }
    assert(state_vec_y_spec(f.front_left) == 0) by {
        assert(v * 0 == u * 0) by (nonlinear_arith);
        vstd::arithmetic::div_mod::lemma_div_multiples_vanish(0, u);
    }
    assert(body_vx_spec(f) == v) by {
        assert(v + v + v + v == 4 * v);
        vstd::arithmetic::div_mod::lemma_div_multiples_vanish(v, 4);
    }
    assert(body_vy_spec(f) == 0) by {
        vstd::arithmetic::div_mod::lemma_div_multiples_vanish(0, 4);
    }
    crate::vector::lemma_rotate_zero(v, 0);
    assert(travel_spec(0, dt) == 0) by {
        assert(0 * dt == u * 0) by (nonlinear_arith);
        vstd::arithmetic::div_mod::lemma_div_multiples_vanish(0, u);
    }
    lemma_straight_pose_linear(x0, v, dt, n);
    if v == u {
        assert(travel_spec(v, dt) == dt) by {
            assert(u * dt == u * dt);
            vstd::arithmetic::div_mod::lemma_div_multiples_vanish(dt, u);
        }
    }
}

/// One velocity component integrated over the elapsed time.
fn travel(v: i64, dt: i64) -> (r: i64)
    requires
        abs_spec(v as int) <= 2 * SPEED_LIMIT,
        0 <= dt <= DT_LIMIT,
    ensures
        r == travel_spec(v as int, dt as int),
        abs_spec(r as int) <= POSE_STEP,
{
    let wide: i128 = wide_mul(v, dt);
    proof {
        assert(abs_spec(wide as int) <= POSE_STEP * UNIT) by (nonlinear_arith)
            requires
                wide == v as int * dt as int,
                abs_spec(v as int) <= 2 * SPEED_LIMIT,
                0 <= dt <= DT_LIMIT,
                SPEED_LIMIT == 5_000_000_000,
                DT_LIMIT == 10_000_000,
                POSE_STEP == 100_000_000_000,
                UNIT == 1_000_000,
        ;
        lemma_div_unit_bound(wide as int, POSE_STEP as int);
    }
    floor_div_wide(wide, UNIT as i128) as i64
}

} // verus!

//! The per-module command value and its steering-travel optimization.
//!
//! A `SwerveState` pairs a steering angle in ticks with a wheel speed in
//! micro-units.  `optimize` is the standard swerve angle flip: when reaching
//! the target steering angle would take more than a quarter turn of travel
//! from the last commanded angle, the wheel is pointed half a turn away and
//! run backward instead, which realizes the same motion with at most a
//! quarter turn of steering.

use vstd::prelude::*;
use crate::angle::{
    lemma_norm_shift, lemma_optimize_angle_minimal, lemma_optimize_angle_within_half_turn,
    norm_spec, normalize_angle, optimize_angle, optimize_angle_spec, HALF_TURN, QUARTER_TURN,
    TURN_TICKS,
};
use crate::fixed::{abs_i64, abs_spec, lemma_div_unit_bound, mul_div_unit, COORD_LIMIT, UNIT};
use crate::trig::{cos_spec, sin_spec, vec_angle, vec_angle_spec};
use crate::vector::{magnitude_spec, Vec2};

verus! {

/// The widest wheel speed a state may carry: enough for the length of any
/// in-bounds vector.
pub const SPEED_LIMIT: i64 = 5_000_000_000;

/// A steering angle (ticks) and wheel speed (micro-units) for one module.
#[derive(Clone, Copy, Debug, PartialEq, Eq, Structural)]
pub struct SwerveState {
    pub angle: i64,
    pub drive: i64,
}

/// The direction a polar command takes from the vector `(x, y)`: the
/// vector's own direction, or the previous angle when the vector is zero.
pub open spec fn polar_angle_spec(x: int, y: int, prev: int) -> int {
    if x == 0 && y == 0 {
        prev
    } else {
        vec_angle_spec(x, y)
    }
}

/// The x component of the vector that drives at speed `drive` along the
/// tick angle `angle`.
pub open spec fn polar_vec_x_spec(angle: int, drive: int) -> int {
    (drive * cos_spec(angle)) / (UNIT as int)
}

/// The y component of the vector that drives at speed `drive` along `angle`.
pub open spec fn polar_vec_y_spec(angle: int, drive: int) -> int {
    (drive * sin_spec(angle)) / (UNIT as int)
}

/// The x component of the vector a polar command drives along.
pub open spec fn state_vec_x_spec(s: SwerveState) -> int {
    polar_vec_x_spec(s.angle as int, s.drive as int)
}

/// The y component of the vector a polar command drives along.
pub open spec fn state_vec_y_spec(s: SwerveState) -> int {
    polar_vec_y_spec(s.angle as int, s.drive as int)
}

/// The angle and drive that `optimize` selects: the target pair itself when
/// its steering travel from `old_angle` is at most a quarter turn after
/// wraparound resolution, else the pair flipped half a turn round with the
/// speed negated.
pub open spec fn optimize_spec(target_angle: int, target_drive: int, old_angle: int) -> (
    int,
    int,
) {
    let resolved = optimize_angle_spec(old_angle, target_angle);
    if abs_spec(resolved.1 - resolved.0) <= QUARTER_TURN {
        (target_angle, target_drive)
    } else {
        (norm_spec(norm_spec(target_angle) - HALF_TURN), -target_drive)
    }
}

/// Whatever the optimizer decides, the steering travel it asks of the module
/// — the wraparound-resolved distance between its output angle and the
/// previously commanded angle — is at most a quarter turn.
pub proof fn lemma_optimize_bounded_travel(target_angle: int, target_drive: int, old_angle: int)
    ensures
        ({
            let out_angle = optimize_spec(target_angle, target_drive, old_angle).0;
            let resolved = optimize_angle_spec(old_angle, out_angle);
            abs_spec(resolved.1 - resolved.0) <= QUARTER_TURN
        }),
{
    let a = norm_spec(old_angle);
    let bn = norm_spec(target_angle);
    vstd::arithmetic::div_mod::lemma_mod_bound(old_angle, TURN_TICKS as int);
    vstd::arithmetic::div_mod::lemma_mod_bound(target_angle, TURN_TICKS as int);
    let first = optimize_angle_spec(old_angle, target_angle);
    lemma_optimize_angle_within_half_turn(old_angle, target_angle);
    let rep = first.1;
    let d = rep - a;
    if abs_spec(d) <= QUARTER_TURN {
    } else {
        crate::angle::lemma_normalize_idempotent(target_angle);
        lemma_norm_shift(bn - HALF_TURN);
        let f = norm_spec(bn - HALF_TURN);
        assert(f == if bn >= HALF_TURN {
            bn - HALF_TURN
        } else {
            bn + HALF_TURN
        });
        assert(0 <= f < TURN_TICKS);
        lemma_norm_shift(f);
        lemma_optimize_angle_minimal(old_angle, f);
        lemma_optimize_angle_within_half_turn(old_angle, f);
        let v = if d > 0 {
            rep - HALF_TURN
        } else {
            rep + HALF_TURN
        };
        assert(abs_spec(a - v) == HALF_TURN - abs_spec(d));
        assert(v == f || v == f + TURN_TICKS || v == f - TURN_TICKS);
    }
}

impl SwerveState {
    /// The speed stays inside the range the library computes over.
    pub open spec fn wf(self) -> bool {
        abs_spec(self.drive as int) <= SPEED_LIMIT
    }

    /// The state with the given angle and speed.
    pub fn new(angle: i64, drive: i64) -> (r: SwerveState)
        ensures
            r.angle == angle,
            r.drive == drive,
    {
        SwerveState { angle, drive }
    }

    /// The steering angle, in ticks.
    pub fn get_angle(&self) -> (r: i64)
        ensures
            r == self.angle,
    {
        self.angle
    }

    /// The wheel speed, in micro-units.
    pub fn get_drive(&self) -> (r: i64)
        ensures
            r == self.drive,
    {
        self.drive
    }

    /// Drops the speed to zero and keeps the angle.
    pub fn stop(&mut self)
        ensures
            final(self).angle == old(self).angle,
            final(self).drive == 0,
    {
        self.drive = 0
    }

    /// The state that realizes this target with the least steering travel
    /// from the previously commanded state: the target itself, or its
    /// half-turn flip with the speed negated.
    pub fn optimize(self, old: SwerveState) -> (r: SwerveState)
        requires
            self.wf(),
        ensures
            r.angle == optimize_spec(self.angle as int, self.drive as int, old.angle as int).0,
            r.drive == optimize_spec(self.angle as int, self.drive as int, old.angle as int).1,
            r.wf(),
    {
        let resolved = optimize_angle(old.angle, self.angle);
        let delta = resolved.1 - resolved.0;
        if abs_i64(delta) <= QUARTER_TURN {
            self
        } else {
            let an = normalize_angle(self.angle);
            SwerveState { angle: normalize_angle(an - HALF_TURN), drive: -self.drive }
        }
    }

    /// The state that points along `v` at `v`'s length.  A zero vector keeps
    /// the caller's previous angle at zero speed, so a stopped module is
    /// never steered to an arbitrary direction.
    pub fn from_vector(v: Vec2, previous_angle: i64) -> (r: SwerveState)
        requires
            abs_spec(v.x as int) <= 3_000_000_000,
            abs_spec(v.y as int) <= 3_000_000_000,
        ensures
            r.angle == polar_angle_spec(v.x as int, v.y as int, previous_angle as int),
            r.drive == magnitude_spec(v.x as int, v.y as int),
            r.drive >= 0,
            r.drive * r.drive <= v.x * v.x + v.y * v.y,
            v.x * v.x + v.y * v.y < (r.drive + 1) * (r.drive + 1),
            r.wf(),
    {
        if v.x == 0 && v.y == 0 {
            proof {
                assert(v.x * v.x + v.y * v.y == 0) by (nonlinear_arith)
                    requires
                        v.x == 0,
                        v.y == 0,
                ;
            }
            SwerveState { angle: previous_angle, drive: 0 }
        } else {
            SwerveState { angle: vec_angle(v.x, v.y), drive: v.magnitude() }
        }
    }

    /// The vector that drives at this state's speed along its angle.
    pub fn to_vector(self) -> (r: Vec2)
        requires
            self.wf(),
        ensures
            r.x == state_vec_x_spec(self),
            r.y == state_vec_y_spec(self),
            abs_spec(r.x as int) <= abs_spec(self.drive as int),
            abs_spec(r.y as int) <= abs_spec(self.drive as int),
    {
        let c = crate::trig::cos_fp(self.angle);
        let s = crate::trig::sin_fp(self.angle);
        proof {
            let d = self.drive as int;
            assert(abs_spec(d * c as int) <= abs_spec(d) * UNIT && abs_spec(d * s as int)
                <= abs_spec(d) * UNIT) by (nonlinear_arith)
                requires
                    -UNIT <= c as int <= UNIT,
                    -UNIT <= s as int <= UNIT,
            ;
            lemma_div_unit_bound(d * c as int, abs_spec(d));
            lemma_div_unit_bound(d * s as int, abs_spec(d));
        }
        Vec2 { x: mul_div_unit(self.drive, c), y: mul_div_unit(self.drive, s) }
    }
}

} // verus!

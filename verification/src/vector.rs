//! Planar vectors in scaled integer coordinates.
//!
//! A `Vec2` holds micro-unit components.  Every operation states its result
//! exactly, component by component, over the mathematical integers; rotation
//! goes through the fixed-point circle functions of `trig`.

use vstd::prelude::*;
use crate::fixed::{abs_spec, dot_div_unit, wide_mul, COORD_LIMIT, UNIT};
use crate::trig::{cos_spec, isqrt_u64, lemma_cos_zero, lemma_sin_zero, sin_spec, sqrt_floor};

verus! {

/// A planar vector, components in micro-units.
#[derive(Clone, Copy, Debug, PartialEq, Eq, Structural)]
pub struct Vec2 {
    pub x: i64,
    pub y: i64,
}

/// The rounded-down length of the vector `(x, y)`.
pub open spec fn magnitude_spec(x: int, y: int) -> int {
    sqrt_floor((x * x + y * y) as nat) as int
}

/// The x component of a vector rotated counter-clockwise by `a` ticks.
pub open spec fn rot_x_spec(x: int, y: int, a: int) -> int {
    (x * cos_spec(a) - y * sin_spec(a)) / (UNIT as int)
}

/// The y component of a vector rotated counter-clockwise by `a` ticks.
pub open spec fn rot_y_spec(x: int, y: int, a: int) -> int {
    (x * sin_spec(a) + y * cos_spec(a)) / (UNIT as int)
}

/// Rotating by a zero angle moves nothing.
pub proof fn lemma_rotate_zero(x: int, y: int)
    ensures
        rot_x_spec(x, y, 0) == x,
        rot_y_spec(x, y, 0) == y,
{
    lemma_cos_zero();
    lemma_sin_zero();
    let u = UNIT as int;
    assert(x * u - y * 0 == u * x) by (nonlinear_arith);
    assert(x * 0 + y * u == u * y) by (nonlinear_arith);
    vstd::arithmetic::div_mod::lemma_div_multiples_vanish(x, u);
    vstd::arithmetic::div_mod::lemma_div_multiples_vanish(y, u);
}

impl Vec2 {
    /// Both components lie within the range the library computes over.
    pub open spec fn in_bounds(self) -> bool {
        abs_spec(self.x as int) <= COORD_LIMIT && abs_spec(self.y as int) <= COORD_LIMIT
    }

    /// The vector with the given components.
    pub fn new(x: i64, y: i64) -> (r: Vec2)
        ensures
            r.x == x,
            r.y == y,
    {
        Vec2 { x, y }
    }

    /// Component-wise sum.
    pub fn add(self, other: Vec2) -> (r: Vec2)
        requires
            abs_spec(self.x as int) <= 4_000_000_000_000,
            abs_spec(self.y as int) <= 4_000_000_000_000,
            abs_spec(other.x as int) <= 4_000_000_000_000,
            abs_spec(other.y as int) <= 4_000_000_000_000,
        ensures
            r.x == self.x + other.x,
            r.y == self.y + other.y,
    {
        Vec2 { x: self.x + other.x, y: self.y + other.y }
    }

    /// Both components scaled by the micro-unit factor `k`, rounded toward
    /// minus infinity.
    pub fn scale(self, k: i64) -> (r: Vec2)
        requires
            self.in_bounds(),
            abs_spec(k as int) <= COORD_LIMIT,
        ensures
            r.x == (self.x as int * k as int) / (UNIT as int),
            r.y == (self.y as int * k as int) / (UNIT as int),
    {
        Vec2 {
            x: crate::fixed::mul_div_unit(self.x, k),
            y: crate::fixed::mul_div_unit(self.y, k),
        }
    }

    /// A quarter-turn counter-clockwise rotation, exact.
    pub fn rotate90(self) -> (r: Vec2)
        requires
            self.in_bounds(),
        ensures
            r.x == -self.y,
            r.y == self.x,
            r.in_bounds(),
    {
        Vec2 { x: -self.y, y: self.x }
    }

    /// Counter-clockwise rotation by `a` ticks, through the fixed-point
    /// circle functions.
    pub fn rotate(self, a: i64) -> (r: Vec2)
        requires
            abs_spec(self.x as int) <= 10_000_000_000,
            abs_spec(self.y as int) <= 10_000_000_000,
        ensures
            r.x == rot_x_spec(self.x as int, self.y as int, a as int),
            r.y == rot_y_spec(self.x as int, self.y as int, a as int),
            abs_spec(r.x as int) <= abs_spec(self.x as int) + abs_spec(self.y as int),
            abs_spec(r.y as int) <= abs_spec(self.x as int) + abs_spec(self.y as int),
    {
        let c = crate::trig::cos_fp(a);
        let s = crate::trig::sin_fp(a);
        proof {
            assert((-self.y) as int * s as int == -(self.y as int * s as int))
                by (nonlinear_arith);
            let reach = abs_spec(self.x as int) + abs_spec(self.y as int);
            assert(abs_spec(self.x as int * c as int - self.y as int * s as int) <= reach * UNIT
                && abs_spec(self.x as int * s as int + self.y as int * c as int) <= reach * UNIT)
                by (nonlinear_arith)
                requires
                    -UNIT <= c as int <= UNIT,
                    -UNIT <= s as int <= UNIT,
                    reach == abs_spec(self.x as int) + abs_spec(self.y as int),
            ;
            crate::fixed::lemma_div_unit_bound(
                self.x as int * c as int - self.y as int * s as int,
                reach,
            );
            crate::fixed::lemma_div_unit_bound(
                self.x as int * s as int + self.y as int * c as int,
                reach,
            );
        }
        Vec2 { x: dot_div_unit(self.x, c, -self.y, s), y: dot_div_unit(self.x, s, self.y, c) }
    }

    /// The rounded-down length of the vector.
    pub fn magnitude(self) -> (r: i64)
        requires
            abs_spec(self.x as int) <= 3_000_000_000,
            abs_spec(self.y as int) <= 3_000_000_000,
        ensures
            r == magnitude_spec(self.x as int, self.y as int),
            0 <= r,
            r * r <= self.x * self.x + self.y * self.y,
            self.x * self.x + self.y * self.y < (r + 1) * (r + 1),
            r <= 4_300_000_000,
    {
        let xx: i128 = wide_mul(self.x, self.x);
        let yy: i128 = wide_mul(self.y, self.y);
        proof {
            assert(0 <= xx <= 9_000_000_000_000_000_000) by (nonlinear_arith)
                requires
                    xx == self.x as int * self.x as int,
                    abs_spec(self.x as int) <= 3_000_000_000,
            ;
            assert(0 <= yy <= 9_000_000_000_000_000_000) by (nonlinear_arith)
                requires
                    yy == self.y as int * self.y as int,
                    abs_spec(self.y as int) <= 3_000_000_000,
            ;
        }
        let s: u64 = (xx + yy) as u64;
        let r = isqrt_u64(s);
        proof {
            assert(r <= 4_300_000_000) by (nonlinear_arith)
                requires
                    r * r <= s,
                    s <= 18_000_000_000_000_000_000,
            ;
        }
        r as i64
    }
}

} // verus!

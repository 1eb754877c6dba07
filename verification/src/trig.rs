//! Fixed-point circle functions on tick angles.
//!
//! `sin_fp` and `cos_fp` follow a rational half-wave approximation that is
//! exact at every multiple of a quarter turn; `vec_angle` inverts them with a
//! quadratic arctangent fit that is exact on the axes and diagonals; and
//! `isqrt_u64` gives the rounded-down square root for vector magnitudes.

use vstd::prelude::*;
use vstd::arithmetic::div_mod::{
    lemma_div_is_ordered, lemma_div_multiples_vanish, lemma_div_pos_is_pos,
    lemma_fundamental_div_mod, lemma_mod_bound, lemma_small_mod, lemma_add_mod_noop,
};
use crate::angle::{norm_spec, normalize_angle, EIGHTH_TURN, HALF_TURN, QUARTER_TURN, TURN_TICKS};
use crate::fixed::{abs_spec, floor_div, floor_div_wide, wide_mul, UNIT};

verus! {

/// The slope correction of the arctangent fit, in ticks: the closest tick
/// count to 0.273 radians.
pub const ATAN_ADJUST: i64 = 347_563;

/// The rational half-wave: the sine of `x` ticks, for `x` between zero and
/// half a turn, scaled by `UNIT`.
pub open spec fn sin_half_spec(x: int) -> int {
    let p = x * (HALF_TURN - x);
    (UNIT * 16 * p) / (5 * HALF_TURN * HALF_TURN - 4 * p)
}

/// The sine of any tick angle, scaled by `UNIT`: the half-wave on the first
/// half of the canonical range, its mirror image below zero on the second.
pub open spec fn sin_spec(a: int) -> int {
    let n = norm_spec(a);
    if n <= HALF_TURN {
        sin_half_spec(n)
    } else {
        -sin_half_spec(n - HALF_TURN)
    }
}

/// The cosine of any tick angle, scaled by `UNIT`: the sine a quarter turn
/// further on.
pub open spec fn cos_spec(a: int) -> int {
    sin_spec(a + QUARTER_TURN)
}

/// The half-wave never leaves `[0, UNIT]`.
pub proof fn lemma_sin_half_bounds(x: int)
    requires
        0 <= x <= HALF_TURN,
    ensures
        0 <= sin_half_spec(x) <= UNIT,
{
    let h = HALF_TURN as int;
    let p = x * (h - x);
    let num = UNIT * 16 * p;
    let den = 5 * h * h - 4 * p;
    assert(0 <= p && 4 * p <= h * h) by (nonlinear_arith)
        requires
            0 <= x <= h,
            p == x * (h - x),
    ;
    assert(den >= 4 * h * h);
    lemma_div_pos_is_pos(num, den);
    assert(num <= UNIT * den) by (nonlinear_arith)
        requires
            num == UNIT * 16 * p,
            den == 5 * h * h - 4 * p,
            4 * p <= h * h,
            p >= 0,
    ;
    lemma_div_is_ordered(num, UNIT * den, den);
    lemma_div_multiples_vanish(UNIT as int, den);
}

/// The sine of any angle stays within `[-UNIT, UNIT]`.
pub proof fn lemma_sin_bounds(a: int)
    ensures
        -UNIT <= sin_spec(a) <= UNIT,
{
    lemma_mod_bound(a, TURN_TICKS as int);
    let n = norm_spec(a);
    if n <= HALF_TURN {
        lemma_sin_half_bounds(n);
    } else {
        lemma_sin_half_bounds(n - HALF_TURN);
    }
}

/// The sine of zero is exactly zero.
pub proof fn lemma_sin_zero()
    ensures
        sin_spec(0) == 0,
{
    lemma_small_mod(0, TURN_TICKS as nat);
    lemma_div_multiples_vanish(0, 5 * HALF_TURN as int * HALF_TURN as int);
}

/// The sine of half a turn is exactly zero.
pub proof fn lemma_sin_half_turn()
    ensures
        sin_spec(HALF_TURN as int) == 0,
{
    lemma_small_mod(HALF_TURN as nat, TURN_TICKS as nat);
    assert(norm_spec(HALF_TURN as int) == HALF_TURN);
    let h = HALF_TURN as int;
    assert(h * (h - h) == 0) by (nonlinear_arith);
    assert(sin_half_spec(h) == (UNIT * 16 * 0) / (5 * h * h - 4 * 0));
    lemma_div_multiples_vanish(0, 5 * h * h);
}

/// The sine of a quarter turn is exactly `UNIT`, so the cosine of zero is too.
pub proof fn lemma_cos_zero()
    ensures
        cos_spec(0) == UNIT,
        sin_spec(QUARTER_TURN as int) == UNIT,
{
    let h = HALF_TURN as int;
    let q = QUARTER_TURN as int;
    lemma_small_mod(QUARTER_TURN as nat, TURN_TICKS as nat);
    let p = q * (h - q);
    assert(p == q * q);
    assert(4 * p == h * h) by (nonlinear_arith)
        requires
            p == q * q,
            h == 2 * q,
    ;
    let den = 5 * h * h - 4 * p;
    assert(UNIT * 16 * p == den * UNIT) by (nonlinear_arith)
        requires
            den == 5 * h * h - 4 * p,
            4 * p == h * h,
    ;
    lemma_div_multiples_vanish(UNIT as int, den);
}

/// The half-wave, computed in wide registers.
fn sin_half(x: i64) -> (r: i64)
    requires
        0 <= x <= HALF_TURN,
    ensures
        r == sin_half_spec(x as int),
        0 <= r <= UNIT,
{
    proof {
        lemma_sin_half_bounds(x as int);
    }
    let p: i128 = wide_mul(x, HALF_TURN - x);
    proof {
        assert(0 <= p && 4 * p <= (HALF_TURN as int) * (HALF_TURN as int)) by (nonlinear_arith)
            requires
                0 <= x <= HALF_TURN,
                p == x * (HALF_TURN - x),
        ;
    }
    let num: i128 = (UNIT as i128) * 16 * p;
    let den: i128 = 5 * (HALF_TURN as i128) * (HALF_TURN as i128) - 4 * p;
    let r = floor_div_wide(num, den);
    r as i64
}

/// The sine of any tick angle, scaled by `UNIT`.
pub fn sin_fp(a: i64) -> (r: i64)
    ensures
        r == sin_spec(a as int),
        -UNIT <= r <= UNIT,
{
    let n = normalize_angle(a);
    if n <= HALF_TURN {
        sin_half(n)
    } else {
        -sin_half(n - HALF_TURN)
    }
}

/// The cosine of any tick angle, scaled by `UNIT`.
pub fn cos_fp(a: i64) -> (r: i64)
    ensures
        r == cos_spec(a as int),
        -UNIT <= r <= UNIT,
{
    let n = normalize_angle(a);
    proof {
        lemma_add_mod_noop(a as int, QUARTER_TURN as int, TURN_TICKS as int);
        lemma_small_mod(QUARTER_TURN as nat, TURN_TICKS as nat);
        lemma_add_mod_noop(n as int, QUARTER_TURN as int, TURN_TICKS as int);
        crate::angle::lemma_normalize_idempotent(a as int);
    }
    sin_fp(n + QUARTER_TURN)
}

/// The arctangent of a ratio `z` scaled by `UNIT`, for `z` in `[0, UNIT]`,
/// as ticks in `[0, EIGHTH_TURN]`: a quadratic fit that is exact at both
/// ends of the range.
pub open spec fn atan_unit_spec(z: int) -> int {
    (z * (EIGHTH_TURN * UNIT + ATAN_ADJUST * (UNIT - z))) / (UNIT * UNIT)
}

/// The arctangent fit never leaves `[0, EIGHTH_TURN]`.
pub proof fn lemma_atan_unit_bounds(z: int)
    requires
        0 <= z <= UNIT,
    ensures
        0 <= atan_unit_spec(z) <= EIGHTH_TURN,
{
    let u = UNIT as int;
    let e = EIGHTH_TURN as int;
    let k = ATAN_ADJUST as int;
    let num = z * (e * u + k * (u - z));
    assert(0 <= num && num <= e * u * u) by (nonlinear_arith)
        requires
            0 <= z <= u,
            0 < k < e,
            num == z * (e * u + k * (u - z)),
    ;
    lemma_div_pos_is_pos(num, u * u);
    lemma_div_is_ordered(num, e * u * u, u * u);
    assert(e * u * u == (u * u) * e) by (nonlinear_arith);
    lemma_div_multiples_vanish(e, u * u);
}

/// The arctangent fit, in exec form.
fn atan_unit(z: i64) -> (r: i64)
    requires
        0 <= z <= UNIT,
    ensures
        r == atan_unit_spec(z as int),
        0 <= r <= EIGHTH_TURN,
{
    proof {
        lemma_atan_unit_bounds(z as int);
        assert(z * (EIGHTH_TURN * UNIT + ATAN_ADJUST * (UNIT - z)) <= 2_000_000_000_000_000_000)
            by (nonlinear_arith)
            requires
                0 <= z <= UNIT,
                UNIT == 1_000_000,
                EIGHTH_TURN == 1_000_000,
                0 < ATAN_ADJUST < 1_000_000,
        ;
        assert(z * (EIGHTH_TURN * UNIT + ATAN_ADJUST * (UNIT - z)) >= 0) by (nonlinear_arith)
            requires
                0 <= z <= UNIT,
                0 < ATAN_ADJUST < 1_000_000,
        ;
    }
    let num: i64 = z * (EIGHTH_TURN * UNIT + ATAN_ADJUST * (UNIT - z));
    floor_div(num, UNIT * UNIT)
}

/// The first-quadrant direction of `(ax, ay)`, both components nonnegative
/// and not both zero, in ticks within `[0, QUARTER_TURN]`.
pub open spec fn quadrant_angle_spec(ax: int, ay: int) -> int {
    if ay <= ax {
        atan_unit_spec((ay * UNIT) / ax)
    } else {
        QUARTER_TURN - atan_unit_spec((ax * UNIT) / ay)
    }
}

/// The direction of the vector `(x, y)`, in ticks within `[0, TURN_TICKS)`:
/// zero along the positive x axis, a quarter turn along the positive y axis.
pub open spec fn vec_angle_spec(x: int, y: int) -> int {
    let t = quadrant_angle_spec(abs_spec(x), abs_spec(y));
    if x >= 0 && y >= 0 {
        t
    } else if x < 0 && y >= 0 {
        HALF_TURN - t
    } else if x < 0 {
        HALF_TURN + t
    } else {
        norm_spec(TURN_TICKS - t)
    }
}

/// A scaled ratio of a smaller by a larger nonnegative value stays within
/// `[0, UNIT]`.
proof fn lemma_ratio_in_unit(small: int, large: int)
    requires
        0 <= small <= large,
        0 < large,
    ensures
        0 <= (small * UNIT) / large <= UNIT,
{
    let u = UNIT as int;
    assert(0 <= small * u <= large * u) by (nonlinear_arith)
        requires
            0 <= small <= large,
            u > 0,
    ;
    lemma_div_pos_is_pos(small * u, large);
    lemma_div_is_ordered(small * u, large * u, large);
    lemma_div_multiples_vanish(u, large);
}

/// The first-quadrant direction stays within `[0, QUARTER_TURN]`.
pub proof fn lemma_quadrant_angle_bounds(ax: int, ay: int)
    requires
        0 <= ax,
        0 <= ay,
        ax > 0 || ay > 0,
    ensures
        0 <= quadrant_angle_spec(ax, ay) <= QUARTER_TURN,
{
    if ay <= ax {
        lemma_ratio_in_unit(ay, ax);
        lemma_atan_unit_bounds((ay * UNIT) / ax);
    } else {
        lemma_ratio_in_unit(ax, ay);
        lemma_atan_unit_bounds((ax * UNIT) / ay);
    }
}

/// The direction of any nonzero vector lies in the canonical angle range.
pub proof fn lemma_vec_angle_in_range(x: int, y: int)
    requires
        x != 0 || y != 0,
    ensures
        0 <= vec_angle_spec(x, y) < TURN_TICKS,
{
    lemma_quadrant_angle_bounds(abs_spec(x), abs_spec(y));
    let t = quadrant_angle_spec(abs_spec(x), abs_spec(y));
    if !(x >= 0 && y >= 0) && !(x < 0) {
        if t == 0 {
            lemma_mod_bound(TURN_TICKS as int - t, TURN_TICKS as int);
        } else {
            lemma_small_mod((TURN_TICKS as int - t) as nat, TURN_TICKS as nat);
        }
    }
}

/// A vector on the positive x axis points at angle zero.
pub proof fn lemma_vec_angle_east(x: int)
    requires
        x > 0,
    ensures
        vec_angle_spec(x, 0) == 0,
{
    lemma_div_multiples_vanish(0, x);
    assert((0 * UNIT) / x == 0) by {
        assert(0 * UNIT == x * 0) by (nonlinear_arith);
    }
    assert(atan_unit_spec(0) == 0) by {
        lemma_div_multiples_vanish(0, UNIT as int * UNIT as int);
        assert(0 * (EIGHTH_TURN * UNIT + ATAN_ADJUST * (UNIT - 0)) == (UNIT as int * UNIT as int)
            * 0) by (nonlinear_arith);
    }
}

/// A vector on the positive y axis points a quarter turn round.
pub proof fn lemma_vec_angle_north(y: int)
    requires
        y > 0,
    ensures
        vec_angle_spec(0, y) == QUARTER_TURN,
{
    lemma_div_multiples_vanish(0, y);
    assert((0 * UNIT) / y == 0) by {
        assert(0 * UNIT == y * 0) by (nonlinear_arith);
    }
    assert(atan_unit_spec(0) == 0) by {
        lemma_div_multiples_vanish(0, UNIT as int * UNIT as int);
        assert(0 * (EIGHTH_TURN * UNIT + ATAN_ADJUST * (UNIT - 0)) == (UNIT as int * UNIT as int)
            * 0) by (nonlinear_arith);
    }
}

/// The direction of the vector `(x, y)`, in ticks.  Components must carry at
/// least one nonzero entry; the caller owns the zero-vector convention.
pub fn vec_angle(x: i64, y: i64) -> (r: i64)
    requires
        x != 0 || y != 0,
        abs_spec(x as int) <= 3_000_000_000,
        abs_spec(y as int) <= 3_000_000_000,
    ensures
        r == vec_angle_spec(x as int, y as int),
        0 <= r < TURN_TICKS,
{
    proof {
        lemma_vec_angle_in_range(x as int, y as int);
        lemma_quadrant_angle_bounds(abs_spec(x as int), abs_spec(y as int));
    }
    let ax = crate::fixed::abs_i64(x);
    let ay = crate::fixed::abs_i64(y);
    let t: i64 = if ay <= ax {
        proof {
            lemma_ratio_in_unit(ay as int, ax as int);
            assert(ay * UNIT <= 3_000_000_000_000_000) by (nonlinear_arith)
                requires
                    0 <= ay <= 3_000_000_000,
                    UNIT == 1_000_000,
            ;
        }
        atan_unit(floor_div(ay * UNIT, ax))
    } else {
        proof {
            lemma_ratio_in_unit(ax as int, ay as int);
            assert(ax * UNIT <= 3_000_000_000_000_000) by (nonlinear_arith)
                requires
                    0 <= ax <= 3_000_000_000,
                    UNIT == 1_000_000,
            ;
        }
        QUARTER_TURN - atan_unit(floor_div(ax * UNIT, ay))
    };
    if x >= 0 && y >= 0 {
        t
    } else if x < 0 && y >= 0 {
        HALF_TURN - t
    } else if x < 0 {
        HALF_TURN + t
    } else {
        normalize_angle(TURN_TICKS - t)
    }
}

/// The rounded-down square root, as specifications state it.
pub open spec fn sqrt_floor(n: nat) -> nat
    decreases n,
{
    if n == 0 {
        0
    } else {
        let p = sqrt_floor((n - 1) as nat);
        if (p + 1) * (p + 1) <= n {
            p + 1
        } else {
            p
        }
    }
}

/// The rounded-down square root sits just below its argument's true root.
pub proof fn lemma_sqrt_floor_bounds(n: nat)
    ensures
        sqrt_floor(n) * sqrt_floor(n) <= n,
        n < (sqrt_floor(n) + 1) * (sqrt_floor(n) + 1),
    decreases n,
{
    if n == 0 {
        assert(sqrt_floor(0) == 0);
        assert(n < (sqrt_floor(n) + 1) * (sqrt_floor(n) + 1)) by (nonlinear_arith)
            requires
                n == 0,
                sqrt_floor(n) == 0,
        ;
    } else {
        lemma_sqrt_floor_bounds((n - 1) as nat);
        let p = sqrt_floor((n - 1) as nat);
        assert(sqrt_floor(n) == if (p + 1) * (p + 1) <= n {
            p + 1
        } else {
            p
        });
        if (p + 1) * (p + 1) <= n {
            assert(sqrt_floor(n) == p + 1);
            assert(n - 1 < (p + 1) * (p + 1));
            assert(sqrt_floor(n) * sqrt_floor(n) <= n);
            assert((p + 1) * (p + 1) < (p + 2) * (p + 2)) by (nonlinear_arith);
            assert(n < (sqrt_floor(n) + 1) * (sqrt_floor(n) + 1));
        } else {
            assert(sqrt_floor(n) == p);
            assert(sqrt_floor(n) * sqrt_floor(n) <= n);
            assert(n < (sqrt_floor(n) + 1) * (sqrt_floor(n) + 1));
        }
    }
}

/// Only one value sits just below a root: whatever satisfies the square
/// bounds is the rounded-down square root.
pub proof fn lemma_sqrt_floor_unique(n: nat, r: nat)
    requires
        r * r <= n,
        n < (r + 1) * (r + 1),
    ensures
        r == sqrt_floor(n),
{
    lemma_sqrt_floor_bounds(n);
    let s = sqrt_floor(n);
    if r < s {
        assert((r + 1) * (r + 1) <= s * s) by (nonlinear_arith)
            requires
                r + 1 <= s,
        ;
    }
    if s < r {
        assert((s + 1) * (s + 1) <= r * r) by (nonlinear_arith)
            requires
                s + 1 <= r,
        ;
    }
}

/// The rounded-down square root.
pub fn isqrt_u64(n: u64) -> (r: u64)
    ensures
        r * r <= n,
        n < (r + 1) * (r + 1),
        r == sqrt_floor(n as nat),
{
    proof {
        lemma_sqrt_floor_bounds(n as nat);
    }
    let mut lo: u64 = 0;
    let mut hi: u64 = 4_294_967_296;
    proof {
        assert(n < hi * hi) by (nonlinear_arith)
            requires
                hi == 4_294_967_296,
                n <= u64::MAX,
        ;
    }
    while lo + 1 < hi
        invariant
            lo < hi,
            hi <= 4_294_967_296,
            lo * lo <= n,
            n < hi * hi,
        decreases hi - lo,
    {
        let mid = lo + (hi - lo) / 2;
        proof {
            assert(mid * mid <= u64::MAX) by (nonlinear_arith)
                requires
                    mid < 4_294_967_296,
            ;
        }
        if mid * mid <= n {
            lo = mid;
        } else {
            hi = mid;
        }
    }
    proof {
        lemma_sqrt_floor_unique(n as nat, lo as nat);
    }
    lo
}

} // verus!

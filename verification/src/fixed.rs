//! Scaled-integer arithmetic helpers shared by every component.
//!
//! Division is always Euclidean (the remainder is never negative), so every
//! executable result agrees exactly with the `/` and `%` of specifications.

use vstd::prelude::*;

verus! {

/// The scale factor of magnitudes: this many raw steps stand for 1.0.
pub const UNIT: i64 = 1_000_000;

/// The widest coordinate or speed the library accepts: a thousand whole
/// units, room enough for any robot while every intermediate product of two
/// in-range values still fits a machine word.
pub const COORD_LIMIT: i64 = 1_000_000_000;

/// The absolute value, as specifications use it.
pub open spec fn abs_spec(a: int) -> int {
    if a < 0 {
        -a
    } else {
        a
    }
}

/// The nearer of `lo` and `hi` to `v`, when `v` lies outside `[lo, hi]`.
pub open spec fn clamp_spec(v: int, lo: int, hi: int) -> int {
    if v < lo {
        lo
    } else if v > hi {
        hi
    } else {
        v
    }
}

/// A Euclidean quotient never grows past its dividend's range.
proof fn lemma_floor_div_in_range(a: int, b: int, lo: int, hi: int)
    requires
        b > 0,
        lo <= a <= hi,
        lo <= 0 <= hi,
    ensures
        lo <= a / b <= hi,
{
    let q = a / b;
    let r = a % b;
    vstd::arithmetic::div_mod::lemma_fundamental_div_mod(a, b);
    if a >= 0 {
        vstd::arithmetic::div_mod::lemma_div_pos_is_pos(a, b);
        vstd::arithmetic::div_mod::lemma_div_nonincreasing(a, b);
    } else {
        assert(q <= 0) by {
            if q >= 1 {
                assert(b * q >= b) by (nonlinear_arith)
                    requires
                        b > 0,
                        q >= 1,
                ;
            }
        }
        assert(q >= a) by {
            if q <= -1 {
                assert(q * (1 - b) >= b - 1) by (nonlinear_arith)
                    requires
                        q <= -1,
                        b > 0,
                ;
                assert(q - a == q * (1 - b) - r) by {
                    assert(a == b * q + r);
                    assert(q * (1 - b) == q - b * q) by (nonlinear_arith);
                }
            }
        }
    }
}

/// Euclidean quotient of `a` by a positive divisor.
pub fn floor_div(a: i64, b: i64) -> (r: i64)
    requires
        b > 0,
    ensures
        r == a as int / b as int,
{
    proof {
        lemma_floor_div_in_range(a as int, b as int, i64::MIN as int, i64::MAX as int);
    }
    a.checked_div_euclid(b).unwrap()
}

/// Euclidean quotient of a wide intermediate by a positive divisor.
pub fn floor_div_wide(a: i128, b: i128) -> (r: i128)
    requires
        b > 0,
    ensures
        r == a as int / b as int,
{
    proof {
        lemma_floor_div_in_range(a as int, b as int, i128::MIN as int, i128::MAX as int);
    }
    a.checked_div_euclid(b).unwrap()
}

/// Euclidean remainder of `a` by a positive divisor.
pub fn floor_rem(a: i64, b: i64) -> (r: i64)
    requires
        b > 0,
    ensures
        r == a as int % b as int,
        0 <= r < b,
{
    proof {
        vstd::arithmetic::div_mod::lemma_mod_bound(a as int, b as int);
    }
    a.checked_rem_euclid(b).unwrap()
}

/// The product of two narrow values, carried out in a wide register.
pub fn wide_mul(a: i64, b: i64) -> (r: i128)
    ensures
        r == a as int * b as int,
{
    proof {
        assert(a as int * b as int <= i128::MAX && a as int * b as int >= i128::MIN)
            by (nonlinear_arith)
            requires
                i64::MIN <= a <= i64::MAX,
                i64::MIN <= b <= i64::MAX,
        ;
    }
    (a as i128) * (b as i128)
}

/// A quotient whose dividend is at most `bound` times the divisor keeps the
/// bound.
pub proof fn lemma_div_abs_bound(num: int, den: int, bound: int)
    requires
        den > 0,
        abs_spec(num) <= bound * den,
        0 <= bound,
    ensures
        abs_spec(num / den) <= bound,
{
    assert(bound * den == den * bound) by (nonlinear_arith);
    vstd::arithmetic::div_mod::lemma_div_is_ordered(num, bound * den, den);
    vstd::arithmetic::div_mod::lemma_div_is_ordered(-(bound * den), num, den);
    vstd::arithmetic::div_mod::lemma_div_multiples_vanish(bound, den);
    assert(-(bound * den) == den * -bound) by (nonlinear_arith);
    vstd::arithmetic::div_mod::lemma_div_multiples_vanish(-bound, den);
}

/// A quotient of a bounded dividend by `UNIT` keeps a proportional bound.
pub proof fn lemma_div_unit_bound(num: int, bound: int)
    requires
        abs_spec(num) <= bound * UNIT,
        0 <= bound,
    ensures
        abs_spec(num / (UNIT as int)) <= bound,
{
    lemma_div_abs_bound(num, UNIT as int, bound);
}

/// The product of two in-range values, brought back to scale: `a * b / UNIT`,
/// rounded toward minus infinity.
pub fn mul_div_unit(a: i64, b: i64) -> (r: i64)
    requires
        abs_spec(a as int) <= 10_000_000_000,
        abs_spec(b as int) <= 10_000_000_000,
    ensures
        r == (a as int * b as int) / (UNIT as int),
        abs_spec(r as int) <= 100_000_000_000_000,
{
    let p: i128 = wide_mul(a, b);
    proof {
        assert(abs_spec(p as int) <= 100_000_000_000_000 * UNIT) by (nonlinear_arith)
            requires
                p == a as int * b as int,
                abs_spec(a as int) <= 10_000_000_000,
                abs_spec(b as int) <= 10_000_000_000,
                UNIT == 1_000_000,
        ;
        lemma_div_unit_bound(p as int, 100_000_000_000_000);
    }
    floor_div_wide(p, UNIT as i128) as i64
}

/// A two-term scaled sum of products: `(a * b + c * d) / UNIT`, rounded
/// toward minus infinity.
pub fn dot_div_unit(a: i64, b: i64, c: i64, d: i64) -> (r: i64)
    requires
        abs_spec(a as int) <= 10_000_000_000,
        abs_spec(b as int) <= 10_000_000_000,
        abs_spec(c as int) <= 10_000_000_000,
        abs_spec(d as int) <= 10_000_000_000,
    ensures
        r == (a as int * b as int + c as int * d as int) / (UNIT as int),
        abs_spec(r as int) <= 200_000_000_000_000,
{
    let p: i128 = wide_mul(a, b);
    let q: i128 = wide_mul(c, d);
    proof {
        assert(abs_spec(p as int) <= 100_000_000_000_000 * UNIT) by (nonlinear_arith)
            requires
                p == a as int * b as int,
                abs_spec(a as int) <= 10_000_000_000,
                abs_spec(b as int) <= 10_000_000_000,
                UNIT == 1_000_000,
        ;
        assert(abs_spec(q as int) <= 100_000_000_000_000 * UNIT) by (nonlinear_arith)
            requires
                q == c as int * d as int,
                abs_spec(c as int) <= 10_000_000_000,
                abs_spec(d as int) <= 10_000_000_000,
                UNIT == 1_000_000,
        ;
        assert(abs_spec((p + q) as int) <= 200_000_000_000_000 * UNIT);
        lemma_div_unit_bound((p + q) as int, 200_000_000_000_000);
    }
    floor_div_wide(p + q, UNIT as i128) as i64
}

/// Slewing from one in-range value toward another stays in range: the clamp
/// of a bounded target into a window around a bounded center is bounded.
pub proof fn lemma_clamp_abs_bound(v: int, center: int, step: int, bound: int)
    requires
        abs_spec(v) <= bound,
        abs_spec(center) <= bound,
        0 <= step,
    ensures
        abs_spec(clamp_spec(v, center - step, center + step)) <= bound,
{
}

/// The absolute value of anything above the one value whose negation overflows.
pub fn abs_i64(a: i64) -> (r: i64)
    requires
        a > i64::MIN,
    ensures
        r == abs_spec(a as int),
{
    if a < 0 {
        -a
    } else {
        a
    }
}

/// `v` pulled into `[lo, hi]`.
pub fn clamp_i64(v: i64, lo: i64, hi: i64) -> (r: i64)
    requires
        lo <= hi,
    ensures
        r == clamp_spec(v as int, lo as int, hi as int),
{
    if v < lo {
        lo
    } else if v > hi {
        hi
    } else {
        v
    }
}

} // verus!

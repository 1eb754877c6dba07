//! Wraparound-safe angle arithmetic.
//!
//! An angle is a count of ticks, `TURN_TICKS` of them to a revolution.  A raw
//! difference of two angles means nothing until both are reduced to the
//! canonical range and the wraparound ambiguity is resolved; that resolution
//! is what `optimize_angle` does.

use vstd::prelude::*;
use crate::fixed::{abs_i64, abs_spec, floor_rem};

verus! {

/// One full revolution, in angle ticks.
pub const TURN_TICKS: i64 = 8_000_000;

/// Half a revolution: the tick count that stands for an angle of pi.
pub const HALF_TURN: i64 = 4_000_000;

/// A right angle, in ticks.
pub const QUARTER_TURN: i64 = 2_000_000;

/// An eighth of a revolution, in ticks.
pub const EIGHTH_TURN: i64 = 1_000_000;

/// The canonical representative of an angle: its Euclidean remainder by a
/// full revolution, always in `[0, TURN_TICKS)`.
pub open spec fn norm_spec(a: int) -> int {
    a % (TURN_TICKS as int)
}

/// Which representative of `b` — `b` itself, one turn up, or one turn down,
/// all taken after normalizing — lies nearest to the normalized `a`.  Ties
/// keep `b`'s own normalized value.
pub open spec fn optimize_angle_spec(a: int, b: int) -> (int, int) {
    let an = norm_spec(a);
    let bn = norm_spec(b);
    let d0 = abs_spec(an - bn);
    let d1 = abs_spec(an - (bn + TURN_TICKS));
    let d2 = abs_spec(an - (bn - TURN_TICKS));
    if d0 <= d1 && d0 <= d2 {
        (an, bn)
    } else if d1 < d0 && d1 <= d2 {
        (an, bn + TURN_TICKS)
    } else {
        (an, bn - TURN_TICKS)
    }
}

/// Reduces any angle into the canonical range `[0, TURN_TICKS)`.  An angle
/// already in range comes back unchanged, and any whole number of extra
/// revolutions, in either direction, falls away.
pub fn normalize_angle(angle: i64) -> (r: i64)
    ensures
        r == norm_spec(angle as int),
        0 <= r < TURN_TICKS,
{
    floor_rem(angle, TURN_TICKS)
}

/// Normalizing is idempotent: a second reduction changes nothing.
pub proof fn lemma_normalize_idempotent(a: int)
    ensures
        norm_spec(norm_spec(a)) == norm_spec(a),
{
    vstd::arithmetic::div_mod::lemma_mod_bound(a, TURN_TICKS as int);
    vstd::arithmetic::div_mod::lemma_small_mod(norm_spec(a) as nat, TURN_TICKS as nat);
}

/// Returns `a` normalized, beside the representative of `b` that lies
/// nearest to it, chosen among `b`'s normalization and that value one whole
/// turn up or down.
pub fn optimize_angle(a: i64, b: i64) -> (r: (i64, i64))
    ensures
        r.0 == optimize_angle_spec(a as int, b as int).0,
        r.1 == optimize_angle_spec(a as int, b as int).1,
{
    let an = normalize_angle(a);
    let bn = normalize_angle(b);
    let d0 = abs_i64(an - bn);
    let d1 = abs_i64(an - (bn + TURN_TICKS));
    let d2 = abs_i64(an - (bn - TURN_TICKS));
    if d0 <= d1 && d0 <= d2 {
        (an, bn)
    } else if d1 < d0 && d1 <= d2 {
        (an, bn + TURN_TICKS)
    } else {
        (an, bn - TURN_TICKS)
    }
}

/// A value within one turn of the canonical range normalizes by at most one
/// shift of a whole turn.
pub proof fn lemma_norm_shift(x: int)
    requires
        -TURN_TICKS <= x < TURN_TICKS,
    ensures
        norm_spec(x) == if x >= 0 {
            x
        } else {
            x + TURN_TICKS
        },
{
    if x >= 0 {
        vstd::arithmetic::div_mod::lemma_small_mod(x as nat, TURN_TICKS as nat);
    } else {
        vstd::arithmetic::div_mod::lemma_small_mod((x + TURN_TICKS) as nat, TURN_TICKS as nat);
        vstd::arithmetic::div_mod::lemma_mod_add_multiples_vanish(x, TURN_TICKS as int);
    }
}

/// The chosen representative lies at least as close to the normalized `a` as
/// each of the three candidates it was picked from.
pub proof fn lemma_optimize_angle_minimal(a: int, b: int)
    ensures
        abs_spec(optimize_angle_spec(a, b).0 - optimize_angle_spec(a, b).1) <= abs_spec(
            norm_spec(a) - norm_spec(b),
        ),
        abs_spec(optimize_angle_spec(a, b).0 - optimize_angle_spec(a, b).1) <= abs_spec(
            norm_spec(a) - (norm_spec(b) + TURN_TICKS),
        ),
        abs_spec(optimize_angle_spec(a, b).0 - optimize_angle_spec(a, b).1) <= abs_spec(
            norm_spec(a) - (norm_spec(b) - TURN_TICKS),
        ),
{
}

/// The chosen representative really stands for `b` — it differs from `b`'s
/// normalization by a whole revolution at most — and it lies within half a
/// turn of the normalized `a`.
pub proof fn lemma_optimize_angle_within_half_turn(a: int, b: int)
    ensures
        optimize_angle_spec(a, b).0 == norm_spec(a),
        abs_spec(optimize_angle_spec(a, b).0 - optimize_angle_spec(a, b).1) <= HALF_TURN,
        optimize_angle_spec(a, b).1 == norm_spec(b)
            || optimize_angle_spec(a, b).1 == norm_spec(b) + TURN_TICKS
            || optimize_angle_spec(a, b).1 == norm_spec(b) - TURN_TICKS,
{
    vstd::arithmetic::div_mod::lemma_mod_bound(a, TURN_TICKS as int);
    vstd::arithmetic::div_mod::lemma_mod_bound(b, TURN_TICKS as int);
}

} // verus!

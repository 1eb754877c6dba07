//! A slew-rate limiter: a stateful filter that follows its input while never
//! moving faster than a configured rate.

use vstd::prelude::*;
use crate::fixed::{abs_spec, clamp_i64, clamp_spec, floor_div_wide, wide_mul, COORD_LIMIT, UNIT};
use crate::types::SPEED_LIMIT;

verus! {

/// The longest step of time one update may integrate over, in micro-seconds.
pub const DT_LIMIT: i64 = 10_000_000;

/// A configuration the library rejects at construction.
#[derive(Clone, Copy, Debug, PartialEq, Eq, Structural)]
pub enum ConfigError {
    /// A rate limit below zero, which no filter can obey.
    NegativeLimit,
    /// A rate limit or starting value too wide for the library's arithmetic.
    OutOfRange,
}

/// How far a limiter may move in one update: its rate, integrated over the
/// elapsed time.
pub open spec fn max_step_spec(limit: int, dt: int) -> int {
    (limit * dt) / (UNIT as int)
}

/// A slew-rate limiter: `value` follows the samples it is given, moving by
/// at most `limit` micro-units per second.
#[derive(Clone, Copy, Debug, PartialEq, Eq, Structural)]
pub struct RateLimiter {
    pub value: i64,
    pub limit: i64,
}

impl RateLimiter {
    /// The rate and the held value stay inside the library's ranges.
    pub open spec fn wf(self) -> bool {
        &&& 0 <= self.limit <= COORD_LIMIT
        &&& abs_spec(self.value as int) <= SPEED_LIMIT
    }

    /// A limiter at `initial` that will move by at most `limit` micro-units
    /// per second.  Fails exactly on a negative rate and on a rate or
    /// starting value outside the library's ranges.
    pub fn new(limit: i64, initial: i64) -> (r: Result<RateLimiter, ConfigError>)
        ensures
            r is Ok <==> (0 <= limit <= COORD_LIMIT && abs_spec(initial as int) <= SPEED_LIMIT),
            r matches Ok(l) ==> l.limit == limit && l.value == initial && l.wf(),
            limit < 0 ==> r == Result::<RateLimiter, ConfigError>::Err(ConfigError::NegativeLimit),
    {
        if limit < 0 {
            Err(ConfigError::NegativeLimit)
        } else if limit > COORD_LIMIT || initial > SPEED_LIMIT || initial < -SPEED_LIMIT {
            Err(ConfigError::OutOfRange)
        } else {
            Ok(RateLimiter { value: initial, limit })
        }
    }

    /// Follows `sample`: the held value moves toward it, by at most the rate
    /// integrated over `dt` micro-seconds, and the moved value is returned.
    pub fn apply(&mut self, sample: i64, dt: i64) -> (r: i64)
        requires
            old(self).wf(),
            abs_spec(sample as int) <= SPEED_LIMIT,
            0 <= dt <= DT_LIMIT,
        ensures
            final(self).limit == old(self).limit,
            final(self).value == clamp_spec(
                sample as int,
                old(self).value - max_step_spec(old(self).limit as int, dt as int),
                old(self).value + max_step_spec(old(self).limit as int, dt as int),
            ),
            r == final(self).value,
            abs_spec(final(self).value - old(self).value) <= max_step_spec(
                old(self).limit as int,
                dt as int,
            ),
            final(self).wf(),
    {
        let wide_step: i128 = wide_mul(self.limit, dt);
        proof {
            assert(0 <= wide_step <= 10_000_000_000 * UNIT) by (nonlinear_arith)
                requires
                    wide_step == self.limit as int * dt as int,
                    0 <= self.limit <= COORD_LIMIT,
                    0 <= dt <= DT_LIMIT,
                    COORD_LIMIT == 1_000_000_000,
                    DT_LIMIT == 10_000_000,
                    UNIT == 1_000_000,
            ;
            crate::fixed::lemma_div_unit_bound(wide_step as int, 10_000_000_000);
            vstd::arithmetic::div_mod::lemma_div_pos_is_pos(wide_step as int, UNIT as int);
        }
        let step: i64 = floor_div_wide(wide_step, UNIT as i128) as i64;
        let moved = clamp_i64(sample, self.value - step, self.value + step);
        self.value = moved;
        moved
    }
}

} // verus!

//! The motion shaper: bounds how fast the commanded drive may change.
//!
//! The shaper works on the polar form of the drive command.  Each cycle it
//! resolves the target direction against the last commanded one with
//! wraparound-safe shortest-path selection, flips the target half a turn
//! round (running the wheel backward) when that costs less steering, derates
//! the speed by the cube of the remaining direction error, shrinks the
//! permitted steering rate as speed grows, and finally slews both the angle
//! and the magnitude toward their targets at bounded rates.

use vstd::prelude::*;
use crate::angle::{norm_spec, normalize_angle, optimize_angle, optimize_angle_spec, HALF_TURN,
    QUARTER_TURN, TURN_TICKS};
use crate::fixed::{abs_i64, abs_spec, clamp_i64, clamp_spec, floor_div_wide, lemma_div_abs_bound,
    wide_mul, COORD_LIMIT, UNIT};
use crate::limiter::{max_step_spec, ConfigError, RateLimiter, DT_LIMIT};
use crate::types::{SwerveState, SPEED_LIMIT};

verus! {

/// The tuning constants of one shaper.
#[derive(Clone, Copy, Debug, PartialEq, Eq, Structural)]
pub struct ShaperConfig {
    /// The speed at which the adaptive steering rate reaches zero.
    pub max_speed: i64,
    /// How fast the commanded speed may change, micro-units per second.
    pub speed_rate: i64,
    /// The base steering slew rate, ticks per second, granted in full only
    /// at standstill.
    pub angle_rate: i64,
    /// How fast the turn-rate command may change, micro-units per second.
    pub turn_rate: i64,
    /// Below this speed a direction is treated as meaningless.
    pub low_speed: i64,
}

impl ShaperConfig {
    /// Every constant lies in the range the library computes over, and the
    /// adaptive rate has a positive speed to scale against.
    pub open spec fn wf(self) -> bool {
        &&& 0 < self.max_speed <= COORD_LIMIT
        &&& 0 <= self.speed_rate <= COORD_LIMIT
        &&& 0 <= self.angle_rate <= COORD_LIMIT
        &&& 0 <= self.turn_rate <= COORD_LIMIT
        &&& 0 <= self.low_speed <= COORD_LIMIT
    }
}

/// The speed that survives a direction error of `adelta` ticks: scaled by
/// the cube of the error's distance from half a turn, so a command at right
/// angles keeps an eighth of its speed and an opposed command none.
pub open spec fn derate_spec(mag: int, adelta: int) -> int {
    let c = HALF_TURN - adelta;
    (mag * (c * c * c)) / ((HALF_TURN as int) * (HALF_TURN as int) * (HALF_TURN as int))
}

/// The steering rate granted at speed `speed_abs`: the base rate scaled by
/// how far the speed sits below `max_speed`, reaching zero at full speed.
pub open spec fn adaptive_rate_spec(rate: int, speed_abs: int, max_speed: int) -> int {
    let capped = if speed_abs > max_speed {
        max_speed
    } else {
        speed_abs
    };
    (rate * (max_speed - capped)) / max_speed
}

/// Everything `shape` does to the polar command, written out: the angle the
/// shaper stores next and the signed magnitude beside it.
pub open spec fn shape_spec(
    cfg: ShaperConfig,
    last_angle: int,
    last_mag: int,
    t_angle: int,
    t_mag: int,
    dt: int,
) -> (int, int) {
    let tgt_angle = if t_mag < cfg.low_speed {
        last_angle
    } else {
        t_angle
    };
    let eff_last = if abs_spec(last_mag) < cfg.low_speed {
        tgt_angle
    } else {
        last_angle
    };
    let a = optimize_angle_spec(eff_last, tgt_angle).0;
    let rep = optimize_angle_spec(eff_last, tgt_angle).1;
    let d = rep - a;
    let rep2 = if abs_spec(d) <= QUARTER_TURN {
        rep
    } else if d > 0 {
        rep - HALF_TURN
    } else {
        rep + HALF_TURN
    };
    let mag1 = if abs_spec(d) <= QUARTER_TURN {
        t_mag
    } else {
        -t_mag
    };
    let mag2 = derate_spec(mag1, abs_spec(d));
    let astep = max_step_spec(
        adaptive_rate_spec(cfg.angle_rate as int, abs_spec(last_mag), cfg.max_speed as int),
        dt,
    );
    let new_angle = norm_spec(clamp_spec(rep2, a - astep, a + astep));
    let mstep = max_step_spec(cfg.speed_rate as int, dt);
    let new_mag = clamp_spec(mag2, last_mag - mstep, last_mag + mstep);
    (new_angle, new_mag)
}

/// A target pointing exactly opposite — a direction error of half a turn —
/// keeps none of its speed, whatever speed was asked.
pub proof fn lemma_opposed_target_speed_vanishes(mag: int)
    ensures
        derate_spec(mag, HALF_TURN as int) == 0,
{
    let den = (HALF_TURN as int) * (HALF_TURN as int) * (HALF_TURN as int);
    assert(mag * (0 * 0 * 0) == den * 0) by (nonlinear_arith);
    vstd::arithmetic::div_mod::lemma_div_multiples_vanish(0, den);
}

/// Derating only ever shrinks a speed: the scaled magnitude never exceeds
/// the one asked for.
pub proof fn lemma_derate_within_speed(mag: int, adelta: int)
    requires
        0 <= adelta <= HALF_TURN,
    ensures
        abs_spec(derate_spec(mag, adelta)) <= abs_spec(mag),
{
    let c = HALF_TURN as int - adelta;
    let c3 = c * c * c;
    let den = (HALF_TURN as int) * (HALF_TURN as int) * (HALF_TURN as int);
    assert(0 <= c3 <= den) by (nonlinear_arith)
        requires
            c3 == c * c * c,
            den == (HALF_TURN as int) * (HALF_TURN as int) * (HALF_TURN as int),
            0 <= c <= HALF_TURN,
    ;
    assert(abs_spec(mag * c3) <= abs_spec(mag) * den) by (nonlinear_arith)
        requires
            0 <= c3 <= den,
    ;
    lemma_div_abs_bound(mag * c3, den, abs_spec(mag));
}

/// At the shaping stage, a target whose wraparound-resolved direction error
/// is exactly half a turn loses its speed entirely, whatever speed was
/// asked: the stored magnitude slews straight toward zero.
pub proof fn lemma_shape_opposed_target(
    cfg: ShaperConfig,
    last_angle: int,
    last_mag: int,
    t_angle: int,
    t_mag: int,
    dt: int,
)
    requires
        ({
            let tgt_angle = if t_mag < cfg.low_speed {
                last_angle
            } else {
                t_angle
            };
            let eff_last = if abs_spec(last_mag) < cfg.low_speed {
                tgt_angle
            } else {
                last_angle
            };
            let resolved = optimize_angle_spec(eff_last, tgt_angle);
            abs_spec(resolved.1 - resolved.0) == HALF_TURN
        }),
    ensures
        shape_spec(cfg, last_angle, last_mag, t_angle, t_mag, dt).1 == clamp_spec(
            0,
            last_mag - max_step_spec(cfg.speed_rate as int, dt),
            last_mag + max_step_spec(cfg.speed_rate as int, dt),
        ),
{
    let tgt_angle = if t_mag < cfg.low_speed {
        last_angle
    } else {
        t_angle
    };
    let eff_last = if abs_spec(last_mag) < cfg.low_speed {
        tgt_angle
    } else {
        last_angle
    };
    let resolved = optimize_angle_spec(eff_last, tgt_angle);
    let d = resolved.1 - resolved.0;
    lemma_opposed_target_speed_vanishes(-t_mag);
    lemma_opposed_target_speed_vanishes(t_mag);
    assert(derate_spec(
        if abs_spec(d) <= QUARTER_TURN {
            t_mag
        } else {
            -t_mag
        },
        abs_spec(d),
    ) == 0);
}

/// A slew step is never negative.
pub proof fn lemma_max_step_nonneg(rate: int, dt: int)
    requires
        0 <= rate,
        0 <= dt,
    ensures
        0 <= max_step_spec(rate, dt),
{
    assert(0 <= rate * dt) by (nonlinear_arith)
        requires
            0 <= rate,
            0 <= dt,
    ;
    vstd::arithmetic::div_mod::lemma_div_pos_is_pos(rate * dt, UNIT as int);
}

/// Shaping never asks for more speed than the target brought or the state
/// already held: the stored magnitude keeps any bound both respect.
pub proof fn lemma_shape_keeps_mag_bound(
    cfg: ShaperConfig,
    last_angle: int,
    last_mag: int,
    t_angle: int,
    t_mag: int,
    dt: int,
    bound: int,
)
    requires
        cfg.wf(),
        abs_spec(last_mag) <= bound,
        0 <= t_mag <= bound,
        0 <= dt,
    ensures
        abs_spec(shape_spec(cfg, last_angle, last_mag, t_angle, t_mag, dt).1) <= bound,
{
    let tgt_angle = if t_mag < cfg.low_speed {
        last_angle
    } else {
        t_angle
    };
    let eff_last = if abs_spec(last_mag) < cfg.low_speed {
        tgt_angle
    } else {
        last_angle
    };
    crate::angle::lemma_optimize_angle_within_half_turn(eff_last, tgt_angle);
    let d = optimize_angle_spec(eff_last, tgt_angle).1 - optimize_angle_spec(eff_last, tgt_angle).0;
    let mag1 = if abs_spec(d) <= QUARTER_TURN {
        t_mag
    } else {
        -t_mag
    };
    lemma_derate_within_speed(mag1, abs_spec(d));
    lemma_max_step_nonneg(cfg.speed_rate as int, dt);
    crate::fixed::lemma_clamp_abs_bound(
        derate_spec(mag1, abs_spec(d)),
        last_mag,
        max_step_spec(cfg.speed_rate as int, dt),
        bound,
    );
}

/// The motion shaper's mutable state: the tuning constants, the last polar
/// command it produced, and the slew limiter of the turn-rate channel.
#[derive(Clone, Copy, Debug, PartialEq, Eq, Structural)]
pub struct MotionShaper {
    pub config: ShaperConfig,
    pub last_angle: i64,
    pub last_mag: i64,
    pub turn_limiter: RateLimiter,
}

impl MotionShaper {
    /// The stored command stays canonical and in range, and the turn channel
    /// keeps its configured rate.
    pub open spec fn wf(self) -> bool {
        &&& self.config.wf()
        &&& 0 <= self.last_angle < TURN_TICKS
        &&& abs_spec(self.last_mag as int) <= SPEED_LIMIT
        &&& self.turn_limiter.wf()
        &&& self.turn_limiter.limit == self.config.turn_rate
    }

    /// A shaper at rest pointing along `initial_angle`.  Fails exactly on a
    /// configuration outside `ShaperConfig::wf`.
    pub fn new(config: ShaperConfig, initial_angle: i64) -> (r: Result<MotionShaper, ConfigError>)
        ensures
            r is Ok <==> config.wf(),
            r matches Ok(s) ==> s.wf() && s.config == config && s.last_angle == norm_spec(
                initial_angle as int,
            ) && s.last_mag == 0 && s.turn_limiter.value == 0,
    {
        if config.max_speed <= 0 || config.speed_rate < 0 || config.angle_rate < 0
            || config.turn_rate < 0 || config.low_speed < 0 {
            Err(ConfigError::NegativeLimit)
        } else if config.max_speed > COORD_LIMIT || config.speed_rate > COORD_LIMIT
            || config.angle_rate > COORD_LIMIT || config.turn_rate > COORD_LIMIT
            || config.low_speed > COORD_LIMIT {
            Err(ConfigError::OutOfRange)
        } else {
            let turn_limiter = match RateLimiter::new(config.turn_rate, 0) {
                Ok(l) => l,
                Err(e) => {
                    proof {
                        assert(false);
                    }
                    return Err(e);
                },
            };
            Ok(MotionShaper { config, last_angle: normalize_angle(initial_angle), last_mag: 0,
                turn_limiter })
        }
    }

    /// One shaping cycle.  Takes the polar target command and the raw turn
    /// rate, moves the stored command toward them under every rule of the
    /// shaper, and returns the shaped polar command with the shaped turn
    /// rate.  The stored magnitude never moves by more than the speed rate
    /// integrated over `dt`.
    pub fn shape(&mut self, target: SwerveState, turn_rate: i64, dt: i64) -> (r: (SwerveState, i64))
        requires
            old(self).wf(),
            0 <= target.drive <= SPEED_LIMIT,
            abs_spec(turn_rate as int) <= SPEED_LIMIT,
            0 <= dt <= DT_LIMIT,
        ensures
            final(self).wf(),
            final(self).config == old(self).config,
            final(self).last_angle == shape_spec(
                old(self).config,
                old(self).last_angle as int,
                old(self).last_mag as int,
                target.angle as int,
                target.drive as int,
                dt as int,
            ).0,
            final(self).last_mag == shape_spec(
                old(self).config,
                old(self).last_angle as int,
                old(self).last_mag as int,
                target.angle as int,
                target.drive as int,
                dt as int,
            ).1,
            abs_spec(final(self).last_mag - old(self).last_mag) <= max_step_spec(
                old(self).config.speed_rate as int,
                dt as int,
            ),
            r.0.angle == final(self).last_angle,
            r.0.drive == final(self).last_mag,
            r.1 == final(self).turn_limiter.value,
            final(self).turn_limiter.value == clamp_spec(
                turn_rate as int,
                old(self).turn_limiter.value - max_step_spec(
                    old(self).config.turn_rate as int,
                    dt as int,
                ),
                old(self).turn_limiter.value + max_step_spec(
                    old(self).config.turn_rate as int,
                    dt as int,
                ),
            ),
    {
        let cfg = self.config;
        let tgt_angle = if target.drive < cfg.low_speed {
            self.last_angle
        } else {
            target.angle
        };
        let last_mag_abs = abs_i64(self.last_mag);
        let eff_last = if last_mag_abs < cfg.low_speed {
            tgt_angle
        } else {
            self.last_angle
        };
        let resolved = optimize_angle(eff_last, tgt_angle);
        let a = resolved.0;
        let rep = resolved.1;
        proof {
            crate::angle::lemma_optimize_angle_within_half_turn(eff_last as int, tgt_angle as int);
        }
        let d = rep - a;
        let ad = abs_i64(d);
        let rep2: i64 = if ad <= QUARTER_TURN {
            rep
        } else if d > 0 {
            rep - HALF_TURN
        } else {
            rep + HALF_TURN
        };
        let mag1: i64 = if ad <= QUARTER_TURN {
            target.drive
        } else {
            -target.drive
        };
        let mag2 = derate(mag1, ad);
        let allowed = adaptive_rate(cfg.angle_rate, last_mag_abs, cfg.max_speed);
        let astep = rate_step(allowed, dt);
        let new_angle = normalize_angle(clamp_i64(rep2, a - astep, a + astep));
        let mstep = rate_step(cfg.speed_rate, dt);
        let new_mag = clamp_i64(mag2, self.last_mag - mstep, self.last_mag + mstep);
        let shaped_turn = self.turn_limiter.apply(turn_rate, dt);
        self.last_angle = new_angle;
        self.last_mag = new_mag;
        (SwerveState { angle: new_angle, drive: new_mag }, shaped_turn)
    }
}

/// The derating stage: the signed magnitude scaled by the cubed distance of
/// the direction error from half a turn.
fn derate(mag: i64, adelta: i64) -> (r: i64)
    requires
        abs_spec(mag as int) <= SPEED_LIMIT,
        0 <= adelta <= HALF_TURN,
    ensures
        r == derate_spec(mag as int, adelta as int),
        abs_spec(r as int) <= abs_spec(mag as int),
{
    let c: i64 = HALF_TURN - adelta;
    let c2: i128 = wide_mul(c, c);
    proof {
        assert(0 <= c2 <= 16_000_000_000_000) by (nonlinear_arith)
            requires
                c2 == c as int * c as int,
                0 <= c <= 4_000_000,
        ;
        assert(0 <= c2 * (c as int) <= 64_000_000_000_000_000_000) by (nonlinear_arith)
            requires
                0 <= c2 <= 16_000_000_000_000,
                0 <= c <= 4_000_000,
        ;
    }
    let c3: i128 = c2 * (c as i128);
    let den: i128 = (HALF_TURN as i128) * (HALF_TURN as i128) * (HALF_TURN as i128);
    proof {
        assert(0 <= c3 <= den) by (nonlinear_arith)
            requires
                c3 == c as int * c as int * c as int,
                den == (HALF_TURN as int) * (HALF_TURN as int) * (HALF_TURN as int),
                0 <= c <= HALF_TURN,
        ;
        assert(abs_spec(mag as int * c3) <= 400_000_000_000_000_000_000_000_000_000)
            by (nonlinear_arith)
            requires
                abs_spec(mag as int) <= SPEED_LIMIT,
                0 <= c3 <= 64_000_000_000_000_000_000,
                SPEED_LIMIT == 5_000_000_000,
        ;
    }
    let num: i128 = (mag as i128) * c3;
    proof {
        assert(abs_spec(num as int) <= abs_spec(mag as int) * den) by (nonlinear_arith)
            requires
                num == mag as int * c3,
                0 <= c3 <= den,
        ;
        lemma_div_abs_bound(num as int, den as int, abs_spec(mag as int));
    }
    floor_div_wide(num, den) as i64
}

/// The adaptive steering-rate stage: the base rate scaled down linearly as
/// the current speed approaches `max_speed`.
fn adaptive_rate(rate: i64, speed_abs: i64, max_speed: i64) -> (r: i64)
    requires
        0 <= rate <= COORD_LIMIT,
        0 <= speed_abs,
        0 < max_speed <= COORD_LIMIT,
    ensures
        r == adaptive_rate_spec(rate as int, speed_abs as int, max_speed as int),
        0 <= r <= rate,
{
    let capped = if speed_abs > max_speed {
        max_speed
    } else {
        speed_abs
    };
    let num: i128 = wide_mul(rate, max_speed - capped);
    proof {
        assert(0 <= num <= rate as int * max_speed as int) by (nonlinear_arith)
            requires
                num == rate as int * (max_speed - capped),
                0 <= max_speed - capped <= max_speed,
                0 <= rate,
        ;
        vstd::arithmetic::div_mod::lemma_div_pos_is_pos(num as int, max_speed as int);
        lemma_div_abs_bound(num as int, max_speed as int, rate as int);
    }
    floor_div_wide(num, max_speed as i128) as i64
}

/// A slew rate integrated over the elapsed time: how far one cycle may move.
fn rate_step(rate: i64, dt: i64) -> (r: i64)
    requires
        0 <= rate <= COORD_LIMIT,
        0 <= dt <= DT_LIMIT,
    ensures
        r == max_step_spec(rate as int, dt as int),
        0 <= r <= 10_000_000_000,
{
    let wide: i128 = wide_mul(rate, dt);
    proof {
        assert(0 <= wide <= 10_000_000_000 * UNIT) by (nonlinear_arith)
            requires
                wide == rate as int * dt as int,
                0 <= rate <= COORD_LIMIT,
                0 <= dt <= DT_LIMIT,
                COORD_LIMIT == 1_000_000_000,
                DT_LIMIT == 10_000_000,
                UNIT == 1_000_000,
        ;
        vstd::arithmetic::div_mod::lemma_div_pos_is_pos(wide as int, UNIT as int);
        crate::fixed::lemma_div_unit_bound(wide as int, 10_000_000_000);
    }
    floor_div_wide(wide, UNIT as i128) as i64
}

} // verus!

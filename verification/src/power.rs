//! The power curve: how much drive force the engine has at a given speed.
//!
//! The curve is a function of the ratio of speed to top speed. Below four
//! tenths it rises as `-log10(0.3 - 0.5 r)`, up to 0.698 it is flat at the
//! full force, and up to top speed it falls as `log10(6 - 5 r) + 0.6`.
//! Above top speed it stays where it ends, at six tenths of the full force.
//! This module decides which stretch a speed lies on, names the number whose
//! logarithm the stretch needs as an exact fraction, and turns the logarithm,
//! once the caller has looked it up, in thousandths and rounded down, into a
//! force. It takes no logarithm itself: integers cannot.

use crate::config::{clamp, clamped};
use crate::fixed::{
    lemma_product_sign, lemma_rescale_bracket, rescale, wide_mul_rescale, within, LIMIT,
};
use crate::logarithm::{lemma_log_near_minus_one, log_not_above};
use vstd::prelude::*;

verus! {

/// Share of the full force when the ratio is negative.
pub const REVERSE_FACTOR: i64 = 500;

/// What is added to the logarithm on the falling flank.
pub const FALLING_LIFT: i64 = 600;

/// A stretch of the power curve.
#[derive(Clone, Copy, Debug, PartialEq, Eq, Structural)]
pub enum CurveSegment {
    /// The ratio is negative: top speed is negative and the body moves.
    Reverse,
    /// The ratio is at least nothing and below 0.4.
    Rising,
    /// The ratio is between 0.4 and 0.698, ends included.
    Plateau,
    /// The ratio is above 0.698 and at most 1.
    Falling,
    /// The ratio is above 1: the curve stays at the value it has at 1.
    Above,
    /// There is no top speed to compare with.
    Beyond,
}

/// A place on the power curve.
///
/// On the two flanks the force depends on the common logarithm of
/// `numerator / denominator`; both are positive.
#[derive(Clone, Copy, Debug, PartialEq, Eq, Structural)]
pub enum CurvePoint {
    Reverse,
    Rising { numerator: i64, denominator: i64 },
    Plateau,
    Falling { numerator: i64, denominator: i64 },
    Above,
    Beyond,
}

impl CurvePoint {
    /// The stretch that the place lies on.
    pub open spec fn segment(self) -> CurveSegment {
        match self {
            CurvePoint::Reverse => CurveSegment::Reverse,
            CurvePoint::Rising { .. } => CurveSegment::Rising,
            CurvePoint::Plateau => CurveSegment::Plateau,
            CurvePoint::Falling { .. } => CurveSegment::Falling,
            CurvePoint::Above => CurveSegment::Above,
            CurvePoint::Beyond => CurveSegment::Beyond,
        }
    }

    /// Numerator and denominator of the number whose logarithm the place
    /// asks for, where it asks for one.
    pub open spec fn argument(self) -> Option<(int, int)> {
        match self {
            CurvePoint::Rising { numerator, denominator } => Some(
                (numerator as int, denominator as int),
            ),
            CurvePoint::Falling { numerator, denominator } => Some(
                (numerator as int, denominator as int),
            ),
            _ => None,
        }
    }
}

/// The stretch of the curve that a body is on which moves at `speed` and
/// has the top speed `max_speed`: the ratio of the two is compared with the
/// ends of the stretches, exactly.
pub open spec fn segment_of(speed: int, max_speed: int) -> CurveSegment {
    if max_speed == 0 {
        CurveSegment::Beyond
    } else if speed == 0 {
        CurveSegment::Rising
    } else if max_speed < 0 {
        CurveSegment::Reverse
    } else if 10 * speed < 4 * max_speed {
        CurveSegment::Rising
    } else if 1000 * speed <= 698 * max_speed {
        CurveSegment::Plateau
    } else if speed <= max_speed {
        CurveSegment::Falling
    } else {
        CurveSegment::Above
    }
}

/// The size of a number.
pub open spec fn magnitude(value: int) -> int {
    if value < 0 {
        -value
    } else {
        value
    }
}

/// Numerator and denominator of the number whose logarithm the curve needs
/// at a ratio of `speed / max_speed`: `0.3 - 0.5 r` on the rising flank and
/// `6 - 5 r` on the falling one, with a positive denominator.
pub open spec fn argument_of(speed: int, max_speed: int) -> Option<(int, int)> {
    match segment_of(speed, max_speed) {
        CurveSegment::Rising => Some(
            (3 * magnitude(max_speed) - 5 * speed, 10 * magnitude(max_speed)),
        ),
        CurveSegment::Falling => Some((6 * max_speed - 5 * speed, max_speed)),
        _ => None,
    }
}

/// The share of the full force on a stretch of the curve, in thousandths,
/// given the logarithm that the stretch asks for.
///
/// Whatever is passed for the logarithm, the share stays between nothing
/// and the whole.
pub open spec fn curve_factor(segment: CurveSegment, log: int) -> int {
    match segment {
        CurveSegment::Reverse => REVERSE_FACTOR as int,
        CurveSegment::Rising => clamped(-log, 0, 1000),
        CurveSegment::Plateau => 1000,
        CurveSegment::Falling => clamped(log + FALLING_LIFT, 0, 1000),
        CurveSegment::Above => FALLING_LIFT as int,
        CurveSegment::Beyond => 0,
    }
}

/// The drive force on a stretch of the curve.
pub open spec fn power_of(segment: CurveSegment, log: int, max_force: int) -> int {
    rescale(curve_factor(segment, log) * max_force)
}

/// Finds the place on the power curve of a body that moves at `speed`.
pub fn curve_point(speed: i64, max_speed: i64) -> (r: CurvePoint)
    requires
        0 <= speed <= 2 * LIMIT,
        within(max_speed as int, LIMIT as int),
    ensures
        r.segment() == segment_of(speed as int, max_speed as int),
        r.argument() == argument_of(speed as int, max_speed as int),
        match r {
            CurvePoint::Rising { numerator, denominator } => 0 < numerator && 0 < denominator
                && numerator * 10 <= denominator * 3 && denominator < numerator * 10,
            CurvePoint::Falling { numerator, denominator } => 0 < denominator <= numerator
                && numerator * 1000 < denominator * 2510,
            _ => true,
        },
{
    if max_speed == 0 {
        CurvePoint::Beyond
    } else if speed == 0 {
        let size = if max_speed > 0 {
            max_speed
        } else {
            0 - max_speed
        };
        CurvePoint::Rising { numerator: 3 * size, denominator: 10 * size }
    } else if max_speed < 0 {
        CurvePoint::Reverse
    } else if 10 * speed < 4 * max_speed {
        CurvePoint::Rising { numerator: 3 * max_speed - 5 * speed, denominator: 10 * max_speed }
    } else if 1000 * speed <= 698 * max_speed {
        CurvePoint::Plateau
    } else if speed <= max_speed {
        CurvePoint::Falling { numerator: 6 * max_speed - 5 * speed, denominator: max_speed }
    } else {
        CurvePoint::Above
    }
}

/// The drive force at a place on the curve, given the common logarithm,
/// in thousandths, of the number that the place asks for.
pub fn lookup_power(point: CurvePoint, log: i64, max_force: i64) -> (r: i64)
    requires
        within(max_force as int, LIMIT as int),
    ensures
        r == power_of(point.segment(), log as int, max_force as int),
        max_force >= 0 ==> 0 <= r <= max_force,
        max_force <= 0 ==> max_force <= r <= 0,
{
    let factor: i64 = match point {
        CurvePoint::Reverse => REVERSE_FACTOR,
        CurvePoint::Rising { .. } => -clamp(log, -1000, 0),
        CurvePoint::Plateau => 1000,
        CurvePoint::Falling { .. } => clamp(log, -FALLING_LIFT, 1000 - FALLING_LIFT) + FALLING_LIFT,
        CurvePoint::Above => FALLING_LIFT,
        CurvePoint::Beyond => 0,
    };
    let r = wide_mul_rescale(
        factor as i128,
        max_force as i128,
        Ghost(1000int),
        Ghost(1_000_000_000int),
    );
    proof {
        lemma_share_of_force(factor as int, max_force as int);
    }
    r as i64
}

/// A share between nothing and the whole of a force lies between nothing
/// and the force; the whole share is the force itself, and no share is no
/// force.
pub proof fn lemma_share_of_force(factor: int, max_force: int)
    requires
        0 <= factor <= 1000,
    ensures
        max_force >= 0 ==> 0 <= rescale(factor * max_force) <= max_force,
        max_force <= 0 ==> max_force <= rescale(factor * max_force) <= 0,
        factor == 1000 ==> rescale(factor * max_force) == max_force,
        factor == 0 ==> rescale(factor * max_force) == 0,
{
    let product = factor * max_force;
    assert(max_force >= 0 ==> 0 <= product <= 1000 * max_force) by (nonlinear_arith)
        requires
            0 <= factor <= 1000,
            product == factor * max_force,
    ;
    assert(max_force <= 0 ==> 1000 * max_force <= product <= 0) by (nonlinear_arith)
        requires
            0 <= factor <= 1000,
            product == factor * max_force,
    ;
    lemma_rescale_bracket(product);
}

/// For a force that is not negative, the power lies between nothing and
/// the full force wherever the body is on the curve and whatever is passed
/// for the logarithm.
pub proof fn lemma_power_within_force(segment: CurveSegment, log: int, max_force: int)
    requires
        max_force >= 0,
    ensures
        0 <= power_of(segment, log, max_force) <= max_force,
        segment == CurveSegment::Plateau ==> power_of(segment, log, max_force) == max_force,
        segment == CurveSegment::Beyond ==> power_of(segment, log, max_force) == 0,
        segment == CurveSegment::Above ==> power_of(segment, log, max_force) == rescale(
            FALLING_LIFT * max_force,
        ),
{
    lemma_share_of_force(curve_factor(segment, log), max_force);
}

/// From a ratio of exactly four tenths to one of exactly 0.698 the engine
/// gives its full force.
pub proof fn lemma_plateau_gives_full_force(speed: int, max_speed: int, log: int, max_force: int)
    requires
        max_speed > 0,
        4 * max_speed <= 10 * speed,
        1000 * speed <= 698 * max_speed,
    ensures
        segment_of(speed, max_speed) == CurveSegment::Plateau,
        power_of(segment_of(speed, max_speed), log, max_force) == max_force,
{
    lemma_share_of_force(1000, max_force);
}

/// On the rising flank the force is short of the full force by as many
/// thousandths of it as the logarithm is above minus one, give or take one
/// rounding step. So the flank meets the plateau without a step: where the
/// logarithm reaches minus one, which is where the ratio reaches four
/// tenths, the force is the full force.
pub proof fn lemma_rising_meets_plateau(log: int, max_force: int)
    requires
        max_force >= 0,
        -1000 <= log <= 0,
    ensures
        power_of(CurveSegment::Rising, log, max_force) == rescale(-log * max_force),
        rescale((1000 + log) * max_force) <= max_force - power_of(
            CurveSegment::Rising,
            log,
            max_force,
        ) <= rescale((1000 + log) * max_force) + 1,
        log == -1000 ==> power_of(CurveSegment::Rising, log, max_force) == max_force,
{
    lemma_gap_to_full_force(-log, max_force);
    lemma_share_of_force(1000, max_force);
}

/// On the falling flank the force is short of the full force by as many
/// thousandths of it as the logarithm is below four tenths, give or take
/// one rounding step. So the flank leaves the plateau without a step: where
/// the logarithm is four tenths, which is where the ratio is 0.698, the
/// force is the full force.
pub proof fn lemma_falling_leaves_plateau(log: int, max_force: int)
    requires
        max_force >= 0,
        -600 <= log <= 400,
    ensures
        power_of(CurveSegment::Falling, log, max_force) == rescale((log + 600) * max_force),
        rescale((400 - log) * max_force) <= max_force - power_of(
            CurveSegment::Falling,
            log,
            max_force,
        ) <= rescale((400 - log) * max_force) + 1,
        log == 400 ==> power_of(CurveSegment::Falling, log, max_force) == max_force,
{
    lemma_gap_to_full_force(log + 600, max_force);
    lemma_share_of_force(1000, max_force);
}

/// There is no jump where the rising flank meets the plateau. Take a body
/// below four tenths of its top speed and a logarithm that is not above the
/// true logarithm of the fraction the curve names there. Then the force is
/// short of the full force, which the plateau gives, by `short` thousandths
/// of it, give or take one rounding step, where `short` is less than 2174
/// for every unit that the ratio is short of four tenths. As the ratio
/// comes up to four tenths, the force comes up to the full force.
pub proof fn lemma_no_jump_at_the_plateau(speed: int, max_speed: int, log: int, max_force: int)
    requires
        max_speed > 0,
        0 <= speed,
        10 * speed < 4 * max_speed,
        max_force >= 0,
        -1000 <= log <= 0,
        log_not_above(3 * max_speed - 5 * speed, 10 * max_speed, log),
    ensures
        segment_of(speed, max_speed) == CurveSegment::Rising,
        argument_of(speed, max_speed) == Some((3 * max_speed - 5 * speed, 10 * max_speed)),
        23 * ((1000 + log) * max_speed) <= 10_000 * (2 * max_speed - 5 * speed),
        0 <= max_force - power_of(segment_of(speed, max_speed), log, max_force) <= rescale(
            (1000 + log) * max_force,
        ) + 1,
{
    lemma_log_near_minus_one(max_speed, 2 * max_speed - 5 * speed, (1000 + log) as nat);
    lemma_rising_meets_plateau(log, max_force);
    lemma_power_within_force(CurveSegment::Rising, log, max_force);
}

/// Above top speed the force is what the falling flank ends with at top
/// speed, where the logarithm is nothing: six tenths of the full force,
/// however far above the body moves.
pub proof fn lemma_curve_stays_above_top_speed(speed: int, max_speed: int, log: int, max_force: int)
    requires
        0 < max_speed < speed,
    ensures
        segment_of(speed, max_speed) == CurveSegment::Above,
        segment_of(max_speed, max_speed) == CurveSegment::Falling,
        argument_of(max_speed, max_speed) == Some((max_speed, max_speed)),
        power_of(segment_of(speed, max_speed), log, max_force) == power_of(
            CurveSegment::Falling,
            0,
            max_force,
        ),
        power_of(segment_of(speed, max_speed), log, max_force) == rescale(
            FALLING_LIFT * max_force,
        ),
{
}

/// What a share leaves of a force and what it takes add up to the force,
/// give or take one rounding step.
proof fn lemma_gap_to_full_force(factor: int, max_force: int)
    requires
        max_force >= 0,
        0 <= factor <= 1000,
    ensures
        rescale((1000 - factor) * max_force) <= max_force - rescale(factor * max_force) <= rescale(
            (1000 - factor) * max_force,
        ) + 1,
{
    let taken = factor * max_force;
    let left = (1000 - factor) * max_force;
    assert(taken + left == 1000 * max_force) by (nonlinear_arith)
        requires
            taken == factor * max_force,
            left == (1000 - factor) * max_force,
    ;
    lemma_product_sign(factor, max_force);
    lemma_product_sign(1000 - factor, max_force);
    lemma_rescale_bracket(taken);
    lemma_rescale_bracket(left);
}

} // verus!

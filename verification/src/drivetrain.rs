//! Drive and brake force of the engine, and the rolling friction that
//! slows a vehicle which nobody drives.

use crate::body::{Body, ForceContribution};
use crate::config::{clamp, clamped};
use crate::fixed::{
    div_toward_zero, lemma_rescaled_product_sign, rescale, trunc_div, wide_mul, wide_mul_rescale,
    within, LIMIT, SCALE,
};
use crate::power::{curve_point, lookup_power, power_of, segment_of};
use crate::tire::TireState;
use crate::vector::{lemma_scaled_keeps_direction, Vec3, Vector, WideVec3};
use vstd::prelude::*;

verus! {

/// Friction coefficient of a rolling tire.
pub const FRICTION_COEFFICIENT: i64 = 500;

/// Gravitational acceleration.
pub const GRAVITY: i64 = 9_810;

/// Number of tires that the weight of a body is shared between.
pub const WEIGHT_SHARES: i64 = 4;

/// The buttons of a gamepad that the model listens to.
#[derive(Clone, Copy, Debug, PartialEq, Eq, Structural)]
pub enum PadButton {
    RightTrigger2,
    LeftTrigger2,
    Start,
    Other,
}

/// A change of a gamepad button: which one, and how far it is pressed,
/// from nothing to a thousand.
#[derive(Clone, Copy, Debug, PartialEq, Eq, Structural)]
pub struct PadEvent {
    pub button: PadButton,
    pub value: i64,
}

/// The state of the two drive keys in one tick.
#[derive(Clone, Copy, Debug, PartialEq, Eq, Structural)]
pub struct DriveKeys {
    pub accelerate: bool,
    pub brake: bool,
    pub accelerate_released: bool,
    pub brake_released: bool,
}

/// An intent: a thousand is full ahead or full left, minus a thousand full
/// brake or full right, nothing is neutral.
pub open spec fn is_intent(value: int) -> bool {
    within(value, SCALE as int)
}

/// What the drive keys alone ask for: ahead, back, or nothing.
pub open spec fn intent_of_keys(keys: DriveKeys) -> int {
    if keys.accelerate {
        SCALE as int
    } else if keys.brake {
        -SCALE
    } else {
        0
    }
}

/// What the drive keys make of the intent of the tick before: a held key
/// decides, a key let go resets, and without either the intent stays.
pub open spec fn intent_after_keys(previous: int, keys: DriveKeys) -> int {
    if keys.accelerate || keys.brake || keys.accelerate_released || keys.brake_released {
        intent_of_keys(keys)
    } else {
        previous
    }
}

/// What one gamepad event makes of the intent. A pressed right trigger
/// drives as far as it is pressed, a pressed left trigger brakes as far as
/// it is pressed; either overrides the keys. A trigger let go overrides
/// nothing: it leaves the intent to the keys.
pub open spec fn intent_after_event(current: int, keys: DriveKeys, event: PadEvent) -> int {
    match event.button {
        PadButton::RightTrigger2 => if event.value != 0 {
            clamped(event.value as int, -SCALE, SCALE as int)
        } else {
            intent_of_keys(keys)
        },
        PadButton::LeftTrigger2 => if event.value != 0 {
            -clamped(event.value as int, -SCALE, SCALE as int)
        } else {
            intent_of_keys(keys)
        },
        _ => current,
    }
}

/// What a run of gamepad events makes of the intent, the last one last.
pub open spec fn intent_after_events(current: int, keys: DriveKeys, events: Seq<PadEvent>) -> int
    decreases events.len(),
{
    if events.len() == 0 {
        current
    } else {
        intent_after_event(
            intent_after_events(current, keys, events.drop_last()),
            keys,
            events.last(),
        )
    }
}

/// The drive intent of a tick: the keys first, then the gamepad.
pub open spec fn drive_intent_of(previous: int, keys: DriveKeys, events: Seq<PadEvent>) -> int {
    intent_after_events(intent_after_keys(previous, keys), keys, events)
}

/// The drive force that the engine of a body has at the body's speed.
pub open spec fn engine_power(body: Body) -> int {
    power_of(
        segment_of(body.linear_velocity@.length(), body.config.max_speed as int),
        body.curve_log as int,
        body.config.max_force as int,
    )
}

/// Whether the engine acts on the ground through this tire: the tire is
/// connected to it, grips the ground, and the driver wants to go or stop.
pub open spec fn drives(body: Body, tire: TireState, intent: int) -> bool {
    tire.tire.connected_to_engine && tire.grounded(body.config) && intent != 0
}

/// The force of the engine at a tire: along the rolling direction, as much
/// of the engine's power as the driver asks for.
pub open spec fn drive_vector(body: Body, tire: TireState, intent: int) -> Vector {
    tire.pose.forward@.scaled(rescale(engine_power(body) * intent))
}

/// The size of the friction force at one tire: a quarter of the weight times
/// the friction coefficient.
pub open spec fn friction_magnitude(mass: int) -> int {
    rescale(rescale(trunc_div(mass, WEIGHT_SHARES as int) * FRICTION_COEFFICIENT) * GRAVITY)
}

/// Whether friction slows this tire: it grips the ground, nobody drives,
/// and the body moves. Whether the tire is connected to the engine plays no
/// part: the tires of a trailer rub as those of a car do.
pub open spec fn rubs(body: Body, tire: TireState, intent: int) -> bool {
    tire.grounded(body.config) && intent == 0 && body.linear_velocity@ != Vector::zero()
}

/// Whether the tire moves backward along its rolling direction.
pub open spec fn rolls_backward(body: Body, tire: TireState) -> bool {
    body.velocity_at(tire.pose.position@).dot_raw(tire.pose.forward@) < 0
}

/// The friction force at a tire: of fixed size, along the rolling
/// direction, against the way the tire moves.
pub open spec fn friction_vector(body: Body, tire: TireState) -> Vector {
    tire.pose.forward@.scaled(
        if rolls_backward(body, tire) {
            friction_magnitude(body.mass as int)
        } else {
            -friction_magnitude(body.mass as int)
        },
    )
}

/// Works out the drive intent of a tick from the intent of the tick before,
/// the drive keys and the gamepad events of this tick.
pub fn drive_intent(previous: i64, keys: &DriveKeys, events: &Vec<PadEvent>) -> (r: i64)
    ensures
        r == drive_intent_of(previous as int, *keys, events@),
        is_intent(previous as int) ==> is_intent(r as int),
{
    let of_keys: i64 = if keys.accelerate {
        SCALE
    } else if keys.brake {
        -SCALE
    } else {
        0
    };
    let mut intent: i64 = if keys.accelerate || keys.brake || keys.accelerate_released
        || keys.brake_released {
        of_keys
    } else {
        previous
    };
    let mut i: usize = 0;
    while i < events.len()
        invariant
            i <= events.len(),
            of_keys == intent_of_keys(*keys),
            intent == intent_after_events(
                intent_after_keys(previous as int, *keys),
                *keys,
                events@.subrange(0, i as int),
            ),
            is_intent(previous as int) ==> is_intent(intent as int),
        decreases events.len() - i,
    {
        let event = events[i];
        proof {
            let before = events@.subrange(0, i as int);
            let after = events@.subrange(0, i + 1);
            assert(after.drop_last() =~= before);
            assert(after.last() == event);
        }
        match event.button {
            PadButton::RightTrigger2 => {
                intent = if event.value != 0 {
                    clamp(event.value, -SCALE, SCALE)
                } else {
                    of_keys
                };
            },
            PadButton::LeftTrigger2 => {
                intent = if event.value != 0 {
                    -clamp(event.value, -SCALE, SCALE)
                } else {
                    of_keys
                };
            },
            _ => {},
        }
        i += 1;
    }
    proof {
        assert(events@.subrange(0, events.len() as int) =~= events@);
    }
    intent
}

/// The drive force that the engine of a body has at the body's speed.
pub fn body_power(body: &Body) -> (r: i64)
    requires
        body.wf(),
    ensures
        r == engine_power(*body),
        within(r as int, LIMIT as int),
{
    let speed = body.linear_velocity.length();
    let point = curve_point(speed, body.config.max_speed);
    lookup_power(point, body.curve_log, body.config.max_force)
}

/// The force of the engine at one tire, if it acts there.
pub fn drive_force(body: &Body, tire: &TireState, intent: i64) -> (r: Option<ForceContribution>)
    requires
        body.wf(),
        tire.wf(),
        is_intent(intent as int),
    ensures
        match r {
            Some(c) => drives(*body, *tire, intent as int) && c.force@ == drive_vector(
                *body,
                *tire,
                intent as int,
            ) && c.point == tire.pose.position && c.body == body.id && c.wf(),
            None => !drives(*body, *tire, intent as int),
        },
{
    if !tire.tire.connected_to_engine || intent == 0 || !tire.is_grounded(&body.config) {
        return None;
    }
    let power = body_power(body);
    let pull = wide_mul_rescale(
        power as i128,
        intent as i128,
        Ghost(1_000_000_000int),
        Ghost(1000int),
    );
    let force = WideVec3::from_vec3(tire.pose.forward).scaled(
        pull,
        Ghost(1000int),
        Ghost(1_000_000_000int),
    );
    Some(
        ForceContribution {
            force: Vec3 { x: force.x as i64, y: force.y as i64, z: force.z as i64 },
            point: tire.pose.position,
            body: body.id,
        },
    )
}

/// The friction force at one tire, if friction acts there.
pub fn friction_force(body: &Body, tire: &TireState, intent: i64) -> (r: Option<ForceContribution>)
    requires
        body.wf(),
        tire.wf(),
    ensures
        match r {
            Some(c) => rubs(*body, *tire, intent as int) && c.force@ == friction_vector(
                *body,
                *tire,
            ) && c.point == tire.pose.position && c.body == body.id && c.wf(),
            None => !rubs(*body, *tire, intent as int),
        },
{
    if intent != 0 || body.linear_velocity.is_zero() || !tire.is_grounded(&body.config) {
        return None;
    }
    let share = div_toward_zero(body.mass, WEIGHT_SHARES);
    let grip = wide_mul_rescale(
        share as i128,
        FRICTION_COEFFICIENT as i128,
        Ghost(1_000_000_000int),
        Ghost(500int),
    );
    let magnitude = wide_mul_rescale(grip, GRAVITY as i128, Ghost(500_000_000int), Ghost(9_810int));
    let velocity = body.wide_velocity_at(tire.pose.position);
    let forward = WideVec3::from_vec3(tire.pose.forward);
    let vx = wide_mul(velocity.x, forward.x, Ghost(4_000_001_000_000_000int), Ghost(1000int));
    let vy = wide_mul(velocity.y, forward.y, Ghost(4_000_001_000_000_000int), Ghost(1000int));
    let vz = wide_mul(velocity.z, forward.z, Ghost(4_000_001_000_000_000int), Ghost(1000int));
    let along = vx + vy + vz;
    let signed = if along < 0 {
        magnitude
    } else {
        -magnitude
    };
    let force = forward.scaled(signed, Ghost(1000int), Ghost(4_905_000_000int));
    Some(
        ForceContribution {
            force: Vec3 { x: force.x as i64, y: force.y as i64, z: force.z as i64 },
            point: tire.pose.position,
            body: body.id,
        },
    )
}

/// Friction never helps: where the tire rolls backward the force does not
/// point backward, and where it does not roll backward the force does not
/// point forward. Its size depends on the mass alone, not on the speed.
pub proof fn lemma_friction_opposes_motion(body: Body, tire: TireState)
    requires
        body.mass >= 0,
    ensures
        friction_magnitude(body.mass as int) >= 0,
        rolls_backward(body, tire) ==> friction_vector(body, tire).dot_raw(tire.pose.forward@) >= 0,
        !rolls_backward(body, tire) ==> friction_vector(body, tire).dot_raw(tire.pose.forward@)
            <= 0,
{
    let share = trunc_div(body.mass as int, WEIGHT_SHARES as int);
    lemma_rescaled_product_sign(share, FRICTION_COEFFICIENT as int);
    lemma_rescaled_product_sign(rescale(share * FRICTION_COEFFICIENT), GRAVITY as int);
    let size = friction_magnitude(body.mass as int);
    lemma_scaled_keeps_direction(tire.pose.forward@, size);
    lemma_scaled_keeps_direction(tire.pose.forward@, -size);
}

/// Friction treats every tire alike: a tire that is not connected to the
/// engine rubs when, and as hard as, the same tire would if it were.
pub proof fn lemma_friction_ignores_engine(body: Body, tire: TireState, other: TireState, intent: int)
    requires
        other.pose == tire.pose,
        other.ground_distance == tire.ground_distance,
    ensures
        rubs(body, other, intent) == rubs(body, tire, intent),
        friction_vector(body, other) == friction_vector(body, tire),
{
}

} // verus!

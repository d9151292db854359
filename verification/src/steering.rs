//! Steering of the front tires, and the cornering force with which every
//! tire that grips the ground resists sliding sideways.

use crate::body::{find_body, has_body, owner_of, Body, ForceContribution, ForceError};
use crate::config::{clamp, clamped, VehicleConfig};
use crate::drivetrain::is_intent;
use crate::fixed::{
    div_toward_zero, lemma_rescaled_product_sign, rescale, trunc_div, wide_mul_rescale, within,
    FORCE_LIMIT, LIMIT, SCALE,
};
use crate::tire::{Tire, TireLocation, TireState};
use crate::vector::{lemma_scaled_keeps_direction, Vector, WideVec3};
use vstd::arithmetic::div_mod::{lemma_basic_div, lemma_div_pos_is_pos};
use vstd::prelude::*;

verus! {

/// Share of the sideways velocity that a tire takes away in one tick.
pub const GRIP_STRENGTH: i64 = 700;

/// The gain that turns a wanted change of velocity into an acceleration,
/// where a vehicle brings none of its own.
pub const CORRECTION_GAIN: i64 = 60_000;

/// The state of the two steering keys in one tick.
#[derive(Clone, Copy, Debug, PartialEq, Eq, Structural)]
pub struct SteerKeys {
    pub left: bool,
    pub right: bool,
}

/// What the keys ask for: full right, full left, or straight ahead.
pub open spec fn steer_from_keys(keys: SteerKeys) -> int {
    if keys.right {
        -SCALE
    } else if keys.left {
        SCALE as int
    } else {
        0
    }
}

/// What one gamepad makes of the intent: a stick that is there and off
/// centre overrides it, pushed right steers right.
pub open spec fn steer_after_stick(current: int, stick: Option<i64>) -> int {
    match stick {
        Some(x) => if x != 0 {
            -clamped(x as int, -SCALE, SCALE as int)
        } else {
            current
        },
        None => current,
    }
}

/// What a row of gamepads makes of the intent, the last one last.
pub open spec fn steer_after_sticks(current: int, sticks: Seq<Option<i64>>) -> int
    decreases sticks.len(),
{
    if sticks.len() == 0 {
        current
    } else {
        steer_after_stick(steer_after_sticks(current, sticks.drop_last()), sticks.last())
    }
}

/// The steering intent of a tick: the keys first, then the gamepads.
pub open spec fn steering_intent_of(keys: SteerKeys, sticks: Seq<Option<i64>>) -> int {
    steer_after_sticks(steer_from_keys(keys), sticks)
}

/// The angle about the vertical axis that a tire is turned to: front tires
/// follow the intent up to the steering lock, rear tires are never turned.
pub open spec fn steering_angle_of(tire: Tire, config: VehicleConfig, intent: int) -> Option<int> {
    match tire.location {
        TireLocation::Front => Some(rescale(intent * config.turn_radius)),
        TireLocation::Back => None,
    }
}

/// The angle that a tire among `bodies` is turned to. A tire whose owner
/// is not there is left as it is.
pub open spec fn turned_angle_of(bodies: Seq<Body>, tire: TireState, intent: int) -> Option<int> {
    if has_body(bodies, tire.owner) {
        steering_angle_of(tire.tire, bodies[owner_of(bodies, tire.owner)].config, intent)
    } else {
        None
    }
}

/// An angle as a mathematical integer.
pub open spec fn angle_of(angle: Option<i64>) -> Option<int> {
    match angle {
        Some(a) => Some(a as int),
        None => None,
    }
}

/// How fast the tire slides along its axle.
pub open spec fn lateral_velocity(body: Body, tire: TireState) -> int {
    tire.pose.side@.dot(body.velocity_at(tire.pose.position@))
}

/// The acceleration along the axle that takes away the tire's share of the
/// sideways velocity.
pub open spec fn cornering_acceleration(lateral: int, gain: int) -> int {
    rescale(-rescale(lateral * GRIP_STRENGTH) * gain)
}

/// The cornering force at a tire: along the axle, against the slide, on the
/// tire's share of the body's mass.
pub open spec fn cornering_vector(body: Body, tire: TireState, tire_count: int, gain: int) -> Vector {
    tire.pose.side@.scaled(
        rescale(
            cornering_acceleration(lateral_velocity(body, tire), gain) * trunc_div(
                body.mass as int,
                tire_count,
            ),
        ),
    )
}

/// Works out the steering intent of a tick from the steering keys and the
/// horizontal position of the left stick of every gamepad.
pub fn steering_intent(keys: &SteerKeys, sticks: &Vec<Option<i64>>) -> (r: i64)
    ensures
        r == steering_intent_of(*keys, sticks@),
        is_intent(r as int),
{
    let mut intent: i64 = if keys.right {
        -SCALE
    } else if keys.left {
        SCALE
    } else {
        0
    };
    let mut i: usize = 0;
    while i < sticks.len()
        invariant
            i <= sticks.len(),
            intent == steer_after_sticks(steer_from_keys(*keys), sticks@.subrange(0, i as int)),
            is_intent(intent as int),
        decreases sticks.len() - i,
    {
        let stick = sticks[i];
        proof {
            let before = sticks@.subrange(0, i as int);
            let after = sticks@.subrange(0, i + 1);
            assert(after.drop_last() =~= before);
            assert(after.last() == stick);
        }
        match stick {
            Some(x) => {
                if x != 0 {
                    intent = -clamp(x, -SCALE, SCALE);
                }
            },
            None => {},
        }
        i += 1;
    }
    proof {
        assert(sticks@.subrange(0, sticks.len() as int) =~= sticks@);
    }
    intent
}

/// The angle about the vertical axis that a tire is to be turned to, if it
/// steers at all.
pub fn steering_angle(tire: &Tire, config: &VehicleConfig, intent: i64) -> (r: Option<i64>)
    requires
        config.wf(),
        is_intent(intent as int),
    ensures
        match r {
            Some(angle) => steering_angle_of(*tire, *config, intent as int) == Some(angle as int),
            None => steering_angle_of(*tire, *config, intent as int).is_none(),
        },
        r.is_some() == (tire.location == TireLocation::Front),
{
    match tire.location {
        TireLocation::Front => {
            let angle = wide_mul_rescale(
                intent as i128,
                config.turn_radius as i128,
                Ghost(1000int),
                Ghost(1_000_000_000int),
            );
            Some(angle as i64)
        },
        TireLocation::Back => None,
    }
}

/// Works out, for every tire, the angle about the vertical axis that it is
/// to be turned to in this tick, if it is to be turned at all.
pub fn turn_tires(bodies: &Vec<Body>, tires: &Vec<TireState>, intent: i64) -> (r: Vec<Option<i64>>)
    requires
        forall|i: int| 0 <= i < bodies.len() ==> (#[trigger] bodies[i]).config.wf(),
        is_intent(intent as int),
    ensures
        r.len() == tires.len(),
        forall|i: int|
            0 <= i < tires.len() ==> angle_of(#[trigger] r[i]) == turned_angle_of(
                bodies@,
                tires[i],
                intent as int,
            ),
{
    let mut angles: Vec<Option<i64>> = Vec::new();
    let mut i: usize = 0;
    while i < tires.len()
        invariant
            i <= tires.len(),
            angles.len() == i,
            forall|k: int| 0 <= k < bodies.len() ==> (#[trigger] bodies[k]).config.wf(),
            is_intent(intent as int),
            forall|k: int|
                0 <= k < i ==> angle_of(#[trigger] angles[k]) == turned_angle_of(
                    bodies@,
                    tires[k],
                    intent as int,
                ),
        decreases tires.len() - i,
    {
        let tire = tires[i];
        let angle = match find_body(bodies, tire.owner) {
            Some(owner) => steering_angle(&tire.tire, &bodies[owner].config, intent),
            None => None,
        };
        angles.push(angle);
        i += 1;
    }
    angles
}

/// The cornering force at one tire of a body that has `tire_count` tires.
///
/// A tire that does not grip the ground has none. A force too large to be
/// handed on is an error.
pub fn cornering_force(body: &Body, tire: &TireState, tire_count: usize, gain: i64) -> (r: Result<
    Option<ForceContribution>,
    ForceError,
>)
    requires
        body.wf(),
        tire.wf(),
        tire_count >= 1,
        within(gain as int, LIMIT as int),
    ensures
        match r {
            Ok(Some(c)) => tire.grounded(body.config) && c.force@ == cornering_vector(
                *body,
                *tire,
                tire_count as int,
                gain as int,
            ) && c.point == tire.pose.position && c.body == body.id && c.wf(),
            Ok(None) => !tire.grounded(body.config),
            Err(_) => tire.grounded(body.config) && !cornering_vector(
                *body,
                *tire,
                tire_count as int,
                gain as int,
            ).within(FORCE_LIMIT as int),
        },
{
    if !tire.is_grounded(&body.config) {
        return Ok(None);
    }
    let side = WideVec3::from_vec3(tire.pose.side);
    let velocity = body.wide_velocity_at(tire.pose.position);
    let lateral = side.dot(velocity, Ghost(1000int), Ghost(4_000_001_000_000_000int));
    let change = -wide_mul_rescale(
        lateral,
        GRIP_STRENGTH as i128,
        Ghost(12_000_003_000_000_000int),
        Ghost(700int),
    );
    let acceleration = wide_mul_rescale(
        change,
        gain as i128,
        Ghost(8_400_002_100_000_000int),
        Ghost(1_000_000_000int),
    );
    let share = if tire_count > LIMIT as usize {
        proof {
            lemma_basic_div(body.mass as int, tire_count as int);
        }
        0
    } else {
        div_toward_zero(body.mass, tire_count as i64)
    };
    let along = wide_mul_rescale(
        acceleration,
        share as i128,
        Ghost(8_400_002_100_000_000_000_000int),
        Ghost(1_000_000_000int),
    );
    let force = side.scaled(
        along,
        Ghost(1000int),
        Ghost(8_400_002_100_000_000_000_000_000_000int),
    );
    match force.narrowed(FORCE_LIMIT) {
        Some(narrow) => Ok(
            Some(ForceContribution { force: narrow, point: tire.pose.position, body: body.id }),
        ),
        None => Err(ForceError::OutOfRange),
    }
}

/// Cornering works against the slide: where the tire slides along its axle
/// the force does not point along the axle, and where it slides against the
/// axle the force does not point against it. A tire that does not slide is
/// left alone.
pub proof fn lemma_cornering_opposes_slide(body: Body, tire: TireState, tire_count: int, gain: int)
    requires
        body.mass >= 0,
        tire_count >= 1,
        gain >= 0,
    ensures
        lateral_velocity(body, tire) >= 0 ==> cornering_vector(body, tire, tire_count, gain).dot_raw(
            tire.pose.side@,
        ) <= 0,
        lateral_velocity(body, tire) <= 0 ==> cornering_vector(body, tire, tire_count, gain).dot_raw(
            tire.pose.side@,
        ) >= 0,
        lateral_velocity(body, tire) == 0 ==> cornering_vector(body, tire, tire_count, gain)
            == Vector::zero(),
{
    let lateral = lateral_velocity(body, tire);
    let kept = rescale(lateral * GRIP_STRENGTH);
    lemma_rescaled_product_sign(lateral, GRIP_STRENGTH as int);
    lemma_rescaled_product_sign(-kept, gain);
    let acceleration = cornering_acceleration(lateral, gain);
    let share = trunc_div(body.mass as int, tire_count);
    lemma_div_pos_is_pos(body.mass as int, tire_count);
    lemma_rescaled_product_sign(acceleration, share);
    let along = rescale(acceleration * share);
    let side = tire.pose.side@;
    lemma_scaled_keeps_direction(side, along);
    if lateral == 0 {
        assert(lateral * GRIP_STRENGTH == 0);
        assert(-kept * gain == 0) by (nonlinear_arith)
            requires
                kept == 0,
        ;
        assert(acceleration * share == 0) by (nonlinear_arith)
            requires
                acceleration == 0,
        ;
        assert(side.x * along == 0 && side.y * along == 0 && side.z * along == 0)
            by (nonlinear_arith)
            requires
                along == 0,
        ;
    }
}

} // verus!

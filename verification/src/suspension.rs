//! The suspension: one spring and one damper per tire, each on its own.

use crate::body::{Body, ForceContribution, ForceError};
use crate::config::VehicleConfig;
use crate::fixed::{lemma_rescale_bracket, rescale, wide_mul_rescale, FORCE_LIMIT};
use crate::tire::TireState;
use crate::vector::{
    lemma_scaled_keeps_direction, lemma_scaled_points_along, Vector, WideVec3,
};
use vstd::prelude::*;

verus! {

/// How far the spring is pressed together when the ground is `distance`
/// away.
pub open spec fn compression(config: VehicleConfig, distance: int) -> int {
    config.spring_offset - distance
}

/// How fast the tire moves along the spring, away from the ground.
pub open spec fn closing_velocity(body: Body, tire: TireState) -> int {
    tire.pose.up@.dot(body.velocity_at(tire.pose.position@))
}

/// The force along the spring: the spring pushes in proportion to its
/// compression, the damper resists in proportion to the closing velocity.
pub open spec fn spring_force(config: VehicleConfig, distance: int, closing: int) -> int {
    rescale(compression(config, distance) * config.spring_power) - rescale(closing * config.shock)
}

/// The suspension force at a tire that stands on ground `distance` away.
pub open spec fn suspension_vector(body: Body, tire: TireState, distance: int) -> Vector {
    tire.pose.up@.scaled(spring_force(body.config, distance, closing_velocity(body, tire)))
}

/// The suspension force at one tire.
///
/// A tire whose ray met nothing within the spring's rest length is in the
/// air and has none. A force too large to be handed on is an error.
pub fn suspension_force(body: &Body, tire: &TireState) -> (r: Result<
    Option<ForceContribution>,
    ForceError,
>)
    requires
        body.wf(),
        tire.wf(),
    ensures
        match r {
            Ok(Some(c)) => tire.sprung(body.config) && c.force@ == suspension_vector(
                *body,
                *tire,
                tire.ground_distance.unwrap() as int,
            ) && c.point == tire.pose.position && c.body == body.id && c.wf(),
            Ok(None) => !tire.sprung(body.config),
            Err(_) => tire.sprung(body.config) && !suspension_vector(
                *body,
                *tire,
                tire.ground_distance.unwrap() as int,
            ).within(FORCE_LIMIT as int),
        },
{
    if !tire.is_sprung(&body.config) {
        return Ok(None);
    }
    let distance = tire.ground_distance.unwrap();
    let up = WideVec3::from_vec3(tire.pose.up);
    let velocity = body.wide_velocity_at(tire.pose.position);
    let closing = up.dot(velocity, Ghost(1000int), Ghost(4_000_001_000_000_000int));
    let pressed = (body.config.spring_offset - distance) as i128;
    let push = wide_mul_rescale(
        pressed,
        body.config.spring_power as i128,
        Ghost(1_000_000_000int),
        Ghost(1_000_000_000int),
    );
    let drag = wide_mul_rescale(
        closing,
        body.config.shock as i128,
        Ghost(12_000_003_000_000_000int),
        Ghost(1_000_000_000int),
    );
    let along = push - drag;
    let force = up.scaled(along, Ghost(1000int), Ghost(12_000_004_000_000_000_000_000int));
    match force.narrowed(FORCE_LIMIT) {
        Some(narrow) => Ok(
            Some(ForceContribution { force: narrow, point: tire.pose.position, body: body.id }),
        ),
        None => Err(ForceError::OutOfRange),
    }
}

/// A spring at its rest length whose tire does not move along it exerts no
/// force.
pub proof fn lemma_spring_at_rest(body: Body, tire: TireState)
    requires
        closing_velocity(body, tire) == 0,
    ensures
        spring_force(body.config, body.config.spring_offset as int, 0) == 0,
        suspension_vector(body, tire, body.config.spring_offset as int) == Vector::zero(),
{
    let up = tire.pose.up@;
    assert(0 * body.config.spring_power == 0 && 0 * body.config.shock == 0);
    assert(spring_force(body.config, body.config.spring_offset as int, 0) == 0);
    assert(up.x * 0 == 0 && up.y * 0 == 0 && up.z * 0 == 0);
    assert(up.scaled(0) == Vector::zero());
}

/// A pressed spring whose tire does not move along it never pulls, and its
/// force is the product of compression and stiffness, short of it by less
/// than one step. It pushes as soon as that product makes up a whole step.
pub proof fn lemma_spring_pushes(config: VehicleConfig, distance: int)
    requires
        compression(config, distance) > 0,
        config.spring_power >= 0,
    ensures
        spring_force(config, distance, 0) >= 0,
        spring_force(config, distance, 0) * 1000 <= compression(config, distance)
            * config.spring_power < (spring_force(config, distance, 0) + 1) * 1000,
        compression(config, distance) * config.spring_power >= 1000 ==> spring_force(
            config,
            distance,
            0,
        ) > 0,
{
    let product = compression(config, distance) * config.spring_power;
    assert(product >= 0) by (nonlinear_arith)
        requires
            compression(config, distance) > 0,
            config.spring_power >= 0,
            product == compression(config, distance) * config.spring_power,
    ;
    lemma_rescale_bracket(product);
}

/// A stiffer spring never pushes less.
pub proof fn lemma_spring_grows_with_stiffness(
    soft: VehicleConfig,
    stiff: VehicleConfig,
    distance: int,
)
    requires
        soft.spring_offset == stiff.spring_offset,
        0 <= soft.spring_power <= stiff.spring_power,
        compression(soft, distance) > 0,
    ensures
        spring_force(soft, distance, 0) <= spring_force(stiff, distance, 0),
{
    let pressed = compression(soft, distance);
    assert(0 <= pressed * soft.spring_power <= pressed * stiff.spring_power) by (nonlinear_arith)
        requires
            pressed > 0,
            0 <= soft.spring_power <= stiff.spring_power,
    ;
    lemma_rescale_bracket(pressed * soft.spring_power);
    lemma_rescale_bracket(pressed * stiff.spring_power);
}

/// The force of a spring whose tire does not move along it does not depend
/// on the damper.
pub proof fn lemma_spring_at_ease_ignores_damper(
    config: VehicleConfig,
    other: VehicleConfig,
    distance: int,
)
    requires
        config.spring_offset == other.spring_offset,
        config.spring_power == other.spring_power,
    ensures
        spring_force(config, distance, 0) == spring_force(other, distance, 0),
        spring_force(config, distance, 0) == rescale(
            compression(config, distance) * config.spring_power,
        ),
{
    assert(0 * config.shock == 0 && 0 * other.shock == 0);
}

/// The force of a pressed spring whose tire does not move along it is
/// linear in the stiffness: a spring `times` as stiff pushes `times` as
/// hard, give or take less than `times` rounding steps, and exactly so where
/// the product of compression and stiffness is a whole number of steps.
pub proof fn lemma_spring_is_linear_in_stiffness(
    soft: VehicleConfig,
    stiff: VehicleConfig,
    distance: int,
    times: int,
)
    requires
        soft.spring_offset == stiff.spring_offset,
        soft.spring_power >= 0,
        times >= 1,
        stiff.spring_power == times * soft.spring_power,
        compression(soft, distance) > 0,
    ensures
        times * spring_force(soft, distance, 0) <= spring_force(stiff, distance, 0) < times
            * spring_force(soft, distance, 0) + times,
        (compression(soft, distance) * soft.spring_power) % 1000 == 0 ==> {
            &&& spring_force(soft, distance, 0) * 1000 == compression(soft, distance)
                * soft.spring_power
            &&& spring_force(stiff, distance, 0) == times * spring_force(soft, distance, 0)
        },
{
    let pressed = compression(soft, distance);
    let single = pressed * soft.spring_power;
    let multiple = pressed * stiff.spring_power;
    assert(0 * soft.shock == 0 && 0 * stiff.shock == 0);
    assert(single >= 0 && multiple == times * single) by (nonlinear_arith)
        requires
            pressed > 0,
            soft.spring_power >= 0,
            times >= 1,
            stiff.spring_power == times * soft.spring_power,
            single == pressed * soft.spring_power,
            multiple == pressed * stiff.spring_power,
    ;
    lemma_rescale_bracket(single);
    lemma_rescale_bracket(multiple);
    let one = rescale(single);
    let many = rescale(multiple);
    assert(times * (one * 1000) <= times * single < times * ((one + 1) * 1000))
        by (nonlinear_arith)
        requires
            times >= 1,
            one * 1000 <= single < (one + 1) * 1000,
    ;
    assert(times * (one * 1000) == (times * one) * 1000 && times * ((one + 1) * 1000) == (times
        * one + times) * 1000) by (nonlinear_arith);
}

/// A pressed spring whose tire does not move along it pushes the body away
/// from the ground: its force does not point against the spring, and points
/// along it unless rounding leaves nothing of the force.
pub proof fn lemma_spring_pushes_away_from_ground(body: Body, tire: TireState, distance: int)
    requires
        closing_velocity(body, tire) == 0,
        compression(body.config, distance) > 0,
        body.config.spring_power >= 0,
    ensures
        suspension_vector(body, tire, distance).dot_raw(tire.pose.up@) >= 0,
        suspension_vector(body, tire, distance) != Vector::zero() ==> suspension_vector(
            body,
            tire,
            distance,
        ).dot_raw(tire.pose.up@) > 0,
{
    lemma_spring_pushes(body.config, distance);
    let along = spring_force(body.config, distance, 0);
    lemma_scaled_keeps_direction(tire.pose.up@, along);
    if along > 0 {
        lemma_scaled_points_along(tire.pose.up@, along);
    } else {
        let up = tire.pose.up@;
        assert(up.x * 0 == 0 && up.y * 0 == 0 && up.z * 0 == 0);
    }
}

} // verus!

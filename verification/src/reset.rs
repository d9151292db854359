//! Putting every vehicle back where it started.

use crate::body::Body;
use crate::drivetrain::{PadButton, PadEvent};
use crate::layout::{spawn_point, spawn_position};
use crate::vector::{Vec3, Vector};
use vstd::prelude::*;

verus! {

/// Whether the driver asks for a reset: the reset key went down in this
/// tick, or a gamepad's start button is reported as pressed.
pub open spec fn reset_asked(key_pressed: bool, events: Seq<PadEvent>) -> bool {
    key_pressed || exists|k: int|
        0 <= k < events.len() && (#[trigger] events[k]).button == PadButton::Start && events[k].value
            != 0
}

/// `after` is `before` back at the place it was set down at, at rest.
/// Everything else is as it was.
pub open spec fn is_reset_of(after: Body, before: Body) -> bool {
    &&& after.position@ == spawn_point(before.config, before.kind)
    &&& after.linear_velocity@ == Vector::zero()
    &&& after.angular_velocity@ == Vector::zero()
    &&& after == (Body {
        position: after.position,
        linear_velocity: after.linear_velocity,
        angular_velocity: after.angular_velocity,
        ..before
    })
}

/// Tells whether the driver asks for a reset.
pub fn reset_requested(key_pressed: bool, events: &Vec<PadEvent>) -> (r: bool)
    ensures
        r == reset_asked(key_pressed, events@),
{
    if key_pressed {
        return true;
    }
    let mut i: usize = 0;
    while i < events.len()
        invariant
            i <= events.len(),
            !key_pressed,
            forall|k: int|
                0 <= k < i ==> !((#[trigger] events@[k]).button == PadButton::Start && events@[k].value
                    != 0),
        decreases events.len() - i,
    {
        let event = events[i];
        let start = match event.button {
            PadButton::Start => true,
            _ => false,
        };
        if start && event.value != 0 {
            return true;
        }
        i += 1;
    }
    false
}

/// Puts every body back at the place it was set down at, at rest, if a
/// reset is asked for; else leaves every body alone.
///
/// The bodies' turning in space is not kept here: whoever keeps it sets
/// each body upright again as well.
pub fn reset_car(should_respawn: bool, bodies: &mut Vec<Body>)
    requires
        forall|i: int| 0 <= i < old(bodies).len() ==> (#[trigger] old(bodies)[i]).config.wf(),
    ensures
        final(bodies).len() == old(bodies).len(),
        forall|i: int|
            0 <= i < old(bodies).len() ==> (if should_respawn {
                is_reset_of(#[trigger] final(bodies)[i], old(bodies)[i])
            } else {
                final(bodies)[i] == old(bodies)[i]
            }),
{
    if !should_respawn {
        return ;
    }
    let ghost before = bodies@;
    let count = bodies.len();
    let mut i: usize = 0;
    while i < count
        invariant
            i <= count,
            count == bodies.len(),
            count == before.len(),
            forall|k: int| 0 <= k < before.len() ==> (#[trigger] before[k]).config.wf(),
            forall|k: int| 0 <= k < i ==> is_reset_of(#[trigger] bodies@[k], before[k]),
            forall|k: int| i <= k < count ==> (#[trigger] bodies@[k]) == before[k],
        decreases count - i,
    {
        let body = bodies[i];
        assert(before[i as int].config.wf());
        bodies[i] = Body {
            position: spawn_position(&body.config, body.kind),
            linear_velocity: Vec3 { x: 0, y: 0, z: 0 },
            angular_velocity: Vec3 { x: 0, y: 0, z: 0 },
            ..body
        };
        i += 1;
    }
}

} // verus!

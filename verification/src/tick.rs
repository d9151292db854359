//! One tick of the force model over every tire of every body: each tire's
//! owner is looked up afresh, each tire adds what it has to add, and the
//! aggregator writes the net result of each body.

use crate::aggregator::{net_on_body, sum_all_forces};
use crate::body::{find_body, has_body, lemma_owner_is_first, owner_of, Body, ForceContribution};
use crate::drivetrain::{
    drive_force, drive_vector, drives, friction_force, friction_vector, is_intent, rubs,
};
use crate::fixed::{within, FORCE_LIMIT, LIMIT};
use crate::steering::{cornering_force, cornering_vector};
use crate::suspension::{suspension_force, suspension_vector};
use crate::tire::TireState;
use crate::vector::Vector;
use vstd::prelude::*;

verus! {

/// The contribution of a force `force` at a tire of the body `body`.
pub open spec fn contribution_at(body: Body, tire: TireState, force: Vector) -> ForceContribution {
    ForceContribution { force: force.stored(), point: tire.pose.position, body: body.id }
}

/// What the suspension adds at a tire: its force where the spring reaches
/// the ground and the force can be handed on, else nothing.
pub open spec fn suspension_part(body: Body, tire: TireState) -> Seq<ForceContribution> {
    if tire.sprung(body.config) && suspension_vector(
        body,
        tire,
        tire.ground_distance.unwrap() as int,
    ).within(FORCE_LIMIT as int) {
        seq![
            contribution_at(
                body,
                tire,
                suspension_vector(body, tire, tire.ground_distance.unwrap() as int),
            ),
        ]
    } else {
        Seq::empty()
    }
}

/// What the engine adds at a tire.
pub open spec fn drive_part(body: Body, tire: TireState, intent: int) -> Seq<ForceContribution> {
    if drives(body, tire, intent) {
        seq![contribution_at(body, tire, drive_vector(body, tire, intent))]
    } else {
        Seq::empty()
    }
}

/// What rolling friction adds at a tire.
pub open spec fn friction_part(body: Body, tire: TireState, intent: int) -> Seq<ForceContribution> {
    if rubs(body, tire, intent) {
        seq![contribution_at(body, tire, friction_vector(body, tire))]
    } else {
        Seq::empty()
    }
}

/// What cornering adds at a tire: its force where the tire grips the ground
/// and the force can be handed on, else nothing.
pub open spec fn cornering_part(body: Body, tire: TireState, tire_count: int, gain: int) -> Seq<
    ForceContribution,
> {
    if tire.grounded(body.config) && cornering_vector(body, tire, tire_count, gain).within(
        FORCE_LIMIT as int,
    ) {
        seq![contribution_at(body, tire, cornering_vector(body, tire, tire_count, gain))]
    } else {
        Seq::empty()
    }
}

/// Everything one tire adds in a tick: suspension, then drive, then
/// friction, then cornering.
pub open spec fn tire_forces_of(
    body: Body,
    tire: TireState,
    tire_count: int,
    intent: int,
    gain: int,
) -> Seq<ForceContribution> {
    suspension_part(body, tire) + drive_part(body, tire, intent) + friction_part(
        body,
        tire,
        intent,
    ) + cornering_part(body, tire, tire_count, gain)
}

/// How many of the first `upto` tires belong to the body `id`.
pub open spec fn tires_owned(tires: Seq<TireState>, id: u64, upto: int) -> int
    decreases upto,
{
    if upto <= 0 {
        0
    } else if tires[upto - 1].owner == id {
        tires_owned(tires, id, upto - 1) + 1
    } else {
        tires_owned(tires, id, upto - 1)
    }
}

/// What the tire at `index` adds in a tick. A tire whose owner is not among
/// the bodies adds nothing.
pub open spec fn forces_at(
    bodies: Seq<Body>,
    tires: Seq<TireState>,
    index: int,
    intent: int,
    gain: int,
) -> Seq<ForceContribution> {
    let tire = tires[index];
    if has_body(bodies, tire.owner) {
        tire_forces_of(
            bodies[owner_of(bodies, tire.owner)],
            tire,
            tires_owned(tires, tire.owner, tires.len() as int),
            intent,
            gain,
        )
    } else {
        Seq::empty()
    }
}

/// What the first `upto` tires add in a tick, tire after tire.
pub open spec fn forces_upto(
    bodies: Seq<Body>,
    tires: Seq<TireState>,
    upto: int,
    intent: int,
    gain: int,
) -> Seq<ForceContribution>
    decreases upto,
{
    if upto <= 0 {
        Seq::empty()
    } else {
        forces_upto(bodies, tires, upto - 1, intent, gain) + forces_at(
            bodies,
            tires,
            upto - 1,
            intent,
            gain,
        )
    }
}

/// Every contribution of a tick.
pub open spec fn tick_forces(bodies: Seq<Body>, tires: Seq<TireState>, intent: int, gain: int) -> Seq<
    ForceContribution,
> {
    forces_upto(bodies, tires, tires.len() as int, intent, gain)
}

/// Every body and every tire may be handed to the force model.
pub open spec fn tick_ready(bodies: Seq<Body>, tires: Seq<TireState>) -> bool {
    &&& forall|i: int| 0 <= i < bodies.len() ==> (#[trigger] bodies[i]).wf()
    &&& forall|i: int| 0 <= i < tires.len() ==> (#[trigger] tires[i]).wf()
}

/// Counts the tires that belong to the body `id`.
pub fn count_tires(tires: &Vec<TireState>, id: u64) -> (r: usize)
    ensures
        r == tires_owned(tires@, id, tires.len() as int),
{
    let mut count: usize = 0;
    let mut i: usize = 0;
    while i < tires.len()
        invariant
            i <= tires.len(),
            count <= i,
            count == tires_owned(tires@, id, i as int),
        decreases tires.len() - i,
    {
        if tires[i].owner == id {
            count += 1;
        }
        i += 1;
    }
    count
}

/// Works out everything one tire adds in a tick, and appends it to `out`.
pub fn tire_forces(
    body: &Body,
    tire: &TireState,
    tire_count: usize,
    intent: i64,
    gain: i64,
    out: &mut Vec<ForceContribution>,
)
    requires
        body.wf(),
        tire.wf(),
        tire_count >= 1,
        is_intent(intent as int),
        within(gain as int, LIMIT as int),
        forall|k: int| 0 <= k < old(out).len() ==> (#[trigger] old(out)[k]).wf(),
    ensures
        final(out)@ == old(out)@ + tire_forces_of(
            *body,
            *tire,
            tire_count as int,
            intent as int,
            gain as int,
        ),
        forall|k: int| 0 <= k < final(out).len() ==> (#[trigger] final(out)[k]).wf(),
{
    let ghost start = out@;
    match suspension_force(body, tire) {
        Ok(Some(c)) => {
            out.push(c);
        },
        _ => {},
    }
    assert(out@ =~= start + suspension_part(*body, *tire));
    let ghost sprung = out@;
    match drive_force(body, tire, intent) {
        Some(c) => {
            out.push(c);
        },
        None => {},
    }
    assert(out@ =~= sprung + drive_part(*body, *tire, intent as int));
    let ghost driven = out@;
    match friction_force(body, tire, intent) {
        Some(c) => {
            out.push(c);
        },
        None => {},
    }
    assert(out@ =~= driven + friction_part(*body, *tire, intent as int));
    let ghost rubbed = out@;
    match cornering_force(body, tire, tire_count, gain) {
        Ok(Some(c)) => {
            out.push(c);
        },
        _ => {},
    }
    assert(out@ =~= rubbed + cornering_part(*body, *tire, tire_count as int, gain as int));
    assert(out@ =~= start + tire_forces_of(
        *body,
        *tire,
        tire_count as int,
        intent as int,
        gain as int,
    ));
}

/// Works out every contribution of a tick.
///
/// `intent` is the drive intent of the tick and `gain` the cornering gain.
/// A tire whose owner is not among the bodies is passed over, and so is a
/// force too large to be handed on; neither holds up the other tires.
pub fn collect_forces(bodies: &Vec<Body>, tires: &Vec<TireState>, intent: i64, gain: i64) -> (r:
    Vec<ForceContribution>)
    requires
        tick_ready(bodies@, tires@),
        is_intent(intent as int),
        within(gain as int, LIMIT as int),
    ensures
        r@ == tick_forces(bodies@, tires@, intent as int, gain as int),
        forall|k: int| 0 <= k < r.len() ==> (#[trigger] r[k]).wf(),
{
    let mut out: Vec<ForceContribution> = Vec::new();
    let mut i: usize = 0;
    while i < tires.len()
        invariant
            i <= tires.len(),
            tick_ready(bodies@, tires@),
            is_intent(intent as int),
            within(gain as int, LIMIT as int),
            out@ == forces_upto(bodies@, tires@, i as int, intent as int, gain as int),
            forall|k: int| 0 <= k < out.len() ==> (#[trigger] out[k]).wf(),
        decreases tires.len() - i,
    {
        let tire = tires[i];
        let ghost before = out@;
        match find_body(bodies, tire.owner) {
            Some(owner) => {
                let body = bodies[owner];
                let tire_count = count_tires(tires, tire.owner);
                proof {
                    lemma_owned_tire_counts(tires@, i as int, tires.len() as int);
                }
                tire_forces(&body, &tire, tire_count, intent, gain, &mut out);
            },
            None => {},
        }
        assert(out@ =~= before + forces_at(bodies@, tires@, i as int, intent as int, gain as int));
        i += 1;
    }
    out
}

/// Runs one tick: works out every contribution, then sums them by body and
/// writes each body's net force and torque into its slot. The contributions
/// are handed back for whoever wants to draw them.
pub fn tick(bodies: &mut Vec<Body>, tires: &Vec<TireState>, intent: i64, gain: i64) -> (r: Vec<
    ForceContribution,
>)
    requires
        tick_ready(old(bodies)@, tires@),
        is_intent(intent as int),
        within(gain as int, LIMIT as int),
    ensures
        r@ == tick_forces(old(bodies)@, tires@, intent as int, gain as int),
        final(bodies).len() == old(bodies).len(),
        forall|i: int|
            0 <= i < old(bodies).len() ==> {
                &&& (#[trigger] final(bodies)[i]).external_force@ == net_on_body(
                    old(bodies)@,
                    i,
                    r@,
                )
                &&& final(bodies)[i] == (Body {
                    external_force: final(bodies)[i].external_force,
                    ..old(bodies)[i]
                })
            },
{
    let contributions = collect_forces(bodies, tires, intent, gain);
    sum_all_forces(bodies, &contributions);
    contributions
}

/// A tire is counted among the tires of its owner.
pub proof fn lemma_owned_tire_counts(tires: Seq<TireState>, index: int, upto: int)
    requires
        0 <= index < upto <= tires.len(),
    ensures
        tires_owned(tires, tires[index].owner, upto) >= 1,
        tires_owned(tires, tires[index].owner, upto) <= upto,
    decreases upto,
{
    lemma_owned_at_most(tires, tires[index].owner, upto - 1);
    if index < upto - 1 {
        lemma_owned_tire_counts(tires, index, upto - 1);
    }
}

/// No more tires are owned than there are.
pub proof fn lemma_owned_at_most(tires: Seq<TireState>, id: u64, upto: int)
    requires
        0 <= upto,
    ensures
        0 <= tires_owned(tires, id, upto) <= upto,
    decreases upto,
{
    if upto > 0 {
        lemma_owned_at_most(tires, id, upto - 1);
    }
}

/// A tire whose ray met nothing adds nothing: no suspension, no drive, no
/// friction, no cornering, whatever the driver asks for and however the
/// body moves.
pub proof fn lemma_airborne_tire_adds_nothing(
    body: Body,
    tire: TireState,
    tire_count: int,
    intent: int,
    gain: int,
)
    requires
        tire.ground_distance.is_none(),
    ensures
        tire_forces_of(body, tire, tire_count, intent, gain) =~= Seq::empty(),
        suspension_part(body, tire) =~= Seq::empty(),
        drive_part(body, tire, intent) =~= Seq::empty(),
        friction_part(body, tire, intent) =~= Seq::empty(),
        cornering_part(body, tire, tire_count, gain) =~= Seq::empty(),
{
}

/// Whatever a tire adds acts on the tire's own body, at the tire.
pub proof fn lemma_tire_forces_name_owner(
    body: Body,
    tire: TireState,
    tire_count: int,
    intent: int,
    gain: int,
)
    ensures
        forall|k: int|
            0 <= k < tire_forces_of(body, tire, tire_count, intent, gain).len() ==> {
                &&& (#[trigger] tire_forces_of(body, tire, tire_count, intent, gain)[k]).body
                    == body.id
                &&& tire_forces_of(body, tire, tire_count, intent, gain)[k].point
                    == tire.pose.position
            },
{
}

/// Whatever the tire at `index` adds in a tick acts on the body that owns
/// the tire, and on no other.
pub proof fn lemma_forces_name_the_tires_owner(
    bodies: Seq<Body>,
    tires: Seq<TireState>,
    index: int,
    intent: int,
    gain: int,
)
    ensures
        forall|k: int|
            0 <= k < forces_at(bodies, tires, index, intent, gain).len() ==> (#[trigger] forces_at(
                bodies,
                tires,
                index,
                intent,
                gain,
            )[k]).body == tires[index].owner,
{
    let tire = tires[index];
    if has_body(bodies, tire.owner) {
        lemma_owner_is_first(bodies, tire.owner);
        lemma_tire_forces_name_owner(
            bodies[owner_of(bodies, tire.owner)],
            tire,
            tires_owned(tires, tire.owner, tires.len() as int),
            intent,
            gain,
        );
    }
}

} // verus!

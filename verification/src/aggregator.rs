//! The aggregator: every force of a tick, gathered by the body it acts on
//! and turned into one net force and one net torque about that body's
//! centre of mass.

use crate::body::{
    distinct_ids, find_body, has_body, is_owner, lemma_owner_unique,
    owner_of, Body, ExternalForce, ForceContribution,
};
use crate::fixed::{lemma_product_within, lemma_rescale_within, FORCE_LIMIT, LIMIT};
use crate::vector::{
    determinant, lemma_cross_is_right_handed, lemma_cross_of_perpendicular, Vec3, Vector, WideVec3,
};
use vstd::prelude::*;

verus! {

/// Largest magnitude of one component of the torque of one contribution.
pub const TORQUE_LIMIT: i64 = 4_000_000_000_000_000_000;

/// The mathematical net force and torque on a body: the model of
/// [`ExternalForce`].
pub struct NetForce {
    pub force: Vector,
    pub torque: Vector,
}

impl View for ExternalForce {
    type V = NetForce;

    open spec fn view(&self) -> NetForce {
        NetForce { force: self.force@, torque: self.torque@ }
    }
}

impl NetForce {
    pub open spec fn zero() -> NetForce {
        NetForce { force: Vector::zero(), torque: Vector::zero() }
    }

    pub open spec fn plus(self, other: NetForce) -> NetForce {
        NetForce { force: self.force.plus(other.force), torque: self.torque.plus(other.torque) }
    }
}

/// The torque about `center` of a force that acts at a point: the arm from
/// the centre to the point, crossed with the force.
pub open spec fn torque_about(center: Vector, contribution: ForceContribution) -> Vector {
    contribution.point@.minus(center).cross(contribution.force@)
}

/// A force that acts at a point, as a force and a torque about `center`.
pub open spec fn wrench_about(center: Vector, contribution: ForceContribution) -> NetForce {
    NetForce { force: contribution.force@, torque: torque_about(center, contribution) }
}

/// The sum, about `center`, of those of the contributions that act on the
/// body `id`. Each of them is counted once; all others are left out.
pub open spec fn net_on(center: Vector, id: u64, contributions: Seq<ForceContribution>) -> NetForce
    decreases contributions.len(),
{
    if contributions.len() == 0 {
        NetForce::zero()
    } else if contributions.last().body == id {
        net_on(center, id, contributions.drop_last()).plus(
            wrench_about(center, contributions.last()),
        )
    } else {
        net_on(center, id, contributions.drop_last())
    }
}

/// The centre of mass that forces on the body `id` are taken about.
pub open spec fn center_of(bodies: Seq<Body>, id: u64) -> Vector {
    bodies[owner_of(bodies, id)].position@
}

/// The net force and torque of a tick on the body at `index`.
pub open spec fn net_on_body(
    bodies: Seq<Body>,
    index: int,
    contributions: Seq<ForceContribution>,
) -> NetForce {
    net_on(center_of(bodies, bodies[index].id), bodies[index].id, contributions)
}

/// The sums of a tick, by the id of the body they act on.
///
/// The sums are kept in a `bevy::utils::HashMap`. Nothing of it is proved
/// here: what holding and finding a sum means is laid down by
/// [`table_entries`] and the three functions that follow it.
#[verifier::external_body]
pub struct ForceTable {
    entries: bevy::utils::HashMap<u64, ExternalForce>,
}

/// What a table holds: the sum kept for each id.
pub uninterp spec fn table_entries(table: ForceTable) -> Map<u64, ExternalForce>;

/// `HashMap::default` of `bevy::utils::HashMap`, which makes a map that
/// holds nothing.
#[verifier::external_body]
fn table_new() -> (table: ForceTable)
    ensures
        forall|id: u64| !table_entries(table).contains_key(id),
{
    ForceTable { entries: bevy::utils::HashMap::default() }
}

/// `HashMap::insert` of `bevy::utils::HashMap`: afterwards the map holds
/// `sum` for `id`, in place of what it may have held for `id` before, and
/// for every other id what it held before.
#[verifier::external_body]
fn table_insert(table: &mut ForceTable, id: u64, sum: ExternalForce)
    ensures
        table_entries(*final(table)) == table_entries(*old(table)).insert(id, sum),
{
    table.entries.insert(id, sum);
}

/// `HashMap::get` of `bevy::utils::HashMap`: the sum that the map holds
/// for `id`, if it holds one.
#[verifier::external_body]
fn table_get(table: &ForceTable, id: u64) -> (sum: Option<ExternalForce>)
    ensures
        sum == (if table_entries(*table).contains_key(id) {
            Some(table_entries(*table)[id])
        } else {
            None
        }),
{
    table.entries.get(&id).copied()
}

/// A force that acts at a point, as a force and a torque about `center`.
pub fn at_point(contribution: &ForceContribution, center: Vec3) -> (r: ExternalForce)
    requires
        contribution.wf(),
        center.bounded(),
    ensures
        r@ == wrench_about(center@, *contribution),
        r.force@.within(FORCE_LIMIT as int),
        r.torque@.within(TORQUE_LIMIT as int),
{
    let arm = WideVec3::from_vec3(contribution.point).minus(
        WideVec3::from_vec3(center),
        Ghost(1_000_000_000int),
        Ghost(1_000_000_000int),
    );
    let force = WideVec3::from_vec3(contribution.force);
    let torque = arm.cross(force, Ghost(2_000_000_000int), Ghost(1_000_000_000_000int));
    ExternalForce { force, torque }
}

/// Sums the forces of one tick and writes the net force and torque of each
/// body into its slot.
///
/// Whatever a slot held before is overwritten. A body on which nothing acts
/// gets no force and no torque. A contribution to a body that is not there
/// is passed over.
pub fn sum_all_forces(bodies: &mut Vec<Body>, contributions: &Vec<ForceContribution>)
    requires
        forall|i: int| 0 <= i < old(bodies).len() ==> (#[trigger] old(bodies)[i]).position.bounded(),
        forall|j: int| 0 <= j < contributions.len() ==> (#[trigger] contributions[j]).wf(),
    ensures
        final(bodies).len() == old(bodies).len(),
        forall|i: int|
            0 <= i < old(bodies).len() ==> {
                &&& (#[trigger] final(bodies)[i]).external_force@ == net_on_body(
                    old(bodies)@,
                    i,
                    contributions@,
                )
                &&& final(bodies)[i] == (Body {
                    external_force: final(bodies)[i].external_force,
                    ..old(bodies)[i]
                })
            },
{
    let ghost before = bodies@;
    let count = bodies.len();
    let mut table = table_new();
    let mut i: usize = 0;
    while i < count
        invariant
            i <= count,
            count == bodies.len(),
            bodies@ == before,
            forall|id: u64|
                table_entries(table).contains_key(id) <==> exists|k: int|
                    0 <= k < i && (#[trigger] before[k]).id == id,
            forall|id: u64|
                table_entries(table).contains_key(id) ==> (#[trigger] table_entries(table)[id])
                    == ExternalForce::none(),
        decreases count - i,
    {
        let id = bodies[i].id;
        let ghost entries = table_entries(table);
        table_insert(&mut table, id, ExternalForce::zero());
        proof {
            assert forall|other: u64|
                table_entries(table).contains_key(other) <==> exists|k: int|
                    0 <= k < i + 1 && (#[trigger] before[k]).id == other by {
                if other == id {
                    assert(before[i as int].id == other);
                } else if entries.contains_key(other) {
                    let k = choose|k: int| 0 <= k < i && (#[trigger] before[k]).id == other;
                    assert(0 <= k < i + 1 && before[k].id == other);
                } else if exists|k: int| 0 <= k < i + 1 && (#[trigger] before[k]).id == other {
                    let k = choose|k: int| 0 <= k < i + 1 && (#[trigger] before[k]).id == other;
                    assert(k < i);
                }
            }
        }
        i += 1;
    }
    proof {
        assert(contributions@.subrange(0, 0) =~= Seq::<ForceContribution>::empty());
    }
    let mut j: usize = 0;
    while j < contributions.len()
        invariant
            j <= contributions.len(),
            count == bodies.len(),
            bodies@ == before,
            forall|k: int| 0 <= k < before.len() ==> (#[trigger] before[k]).position.bounded(),
            forall|k: int| 0 <= k < contributions.len() ==> (#[trigger] contributions[k]).wf(),
            forall|id: u64| table_entries(table).contains_key(id) <==> has_body(before, id),
            forall|id: u64|
                table_entries(table).contains_key(id) ==> (#[trigger] table_entries(table)[id])@
                    == net_on(center_of(before, id), id, contributions@.subrange(0, j as int)),
        decreases contributions.len() - j,
    {
        let contribution = contributions[j];
        let ghost entries = table_entries(table);
        let ghost done = contributions@.subrange(0, j as int);
        let ghost next = contributions@.subrange(0, j + 1);
        proof {
            assert(next.drop_last() =~= done);
            assert(next.last() == contribution);
        }
        match table_get(&table, contribution.body) {
            Some(sum) => {
                match find_body(bodies, contribution.body) {
                    Some(owner) => {
                        let center = bodies[owner].position;
                        let wrench = at_point(&contribution, center);
                        proof {
                            assert(before[owner as int].position.bounded());
                            lemma_net_within(center@, contribution.body, done);
                        }
                        let force = sum.force.plus(
                            wrench.force,
                            Ghost(j * FORCE_LIMIT),
                            Ghost(FORCE_LIMIT as int),
                        );
                        let torque = sum.torque.plus(
                            wrench.torque,
                            Ghost(j * TORQUE_LIMIT),
                            Ghost(TORQUE_LIMIT as int),
                        );
                        table_insert(&mut table, contribution.body, ExternalForce { force, torque });
                    },
                    None => {},
                }
            },
            None => {},
        }
        j += 1;
    }
    proof {
        assert(contributions@.subrange(0, contributions.len() as int) =~= contributions@);
    }
    let mut n: usize = 0;
    while n < count
        invariant
            n <= count,
            count == bodies.len(),
            count == before.len(),
            forall|id: u64| table_entries(table).contains_key(id) <==> has_body(before, id),
            forall|id: u64|
                table_entries(table).contains_key(id) ==> (#[trigger] table_entries(table)[id])@
                    == net_on(center_of(before, id), id, contributions@),
            forall|k: int| n <= k < count ==> bodies@[k] == before[k],
            forall|k: int|
                0 <= k < n ==> {
                    &&& (#[trigger] bodies@[k]).external_force@ == net_on_body(
                        before,
                        k,
                        contributions@,
                    )
                    &&& bodies@[k] == (Body {
                        external_force: bodies@[k].external_force,
                        ..before[k]
                    })
                },
        decreases count - n,
    {
        let body = bodies[n];
        assert(has_body(before, body.id)) by {
            assert(before[n as int].id == body.id);
        }
        match table_get(&table, body.id) {
            Some(sum) => {
                bodies[n] = Body { external_force: sum, ..body };
            },
            None => {},
        }
        n += 1;
    }
}

/// Those of the contributions that act on the body `id`, in their order.
pub open spec fn contributions_to(id: u64, contributions: Seq<ForceContribution>) -> Seq<
    ForceContribution,
>
    decreases contributions.len(),
{
    if contributions.len() == 0 {
        Seq::empty()
    } else if contributions.last().body == id {
        contributions_to(id, contributions.drop_last()).push(contributions.last())
    } else {
        contributions_to(id, contributions.drop_last())
    }
}

/// A body on which nothing acts in a tick has neither net force nor net
/// torque, whatever its slot held before.
pub proof fn lemma_untouched_body_has_no_force(
    center: Vector,
    id: u64,
    contributions: Seq<ForceContribution>,
)
    requires
        forall|k: int| 0 <= k < contributions.len() ==> (#[trigger] contributions[k]).body != id,
    ensures
        net_on(center, id, contributions) == NetForce::zero(),
    decreases contributions.len(),
{
    if contributions.len() > 0 {
        let rest = contributions.drop_last();
        assert(contributions[contributions.len() - 1].body != id);
        assert forall|k: int| 0 <= k < rest.len() implies (#[trigger] rest[k]).body != id by {
            assert(rest[k] == contributions[k]);
        }
        lemma_untouched_body_has_no_force(center, id, rest);
    }
}

/// The net force and torque on a body are those of the contributions that
/// name it: what acts on other bodies never shows in them.
pub proof fn lemma_bodies_are_isolated(
    center: Vector,
    id: u64,
    contributions: Seq<ForceContribution>,
)
    ensures
        net_on(center, id, contributions) == net_on(
            center,
            id,
            contributions_to(id, contributions),
        ),
        forall|k: int|
            0 <= k < contributions_to(id, contributions).len() ==> (#[trigger] contributions_to(
                id,
                contributions,
            )[k]).body == id,
    decreases contributions.len(),
{
    if contributions.len() > 0 {
        let rest = contributions.drop_last();
        let last = contributions.last();
        lemma_bodies_are_isolated(center, id, rest);
        if last.body == id {
            let own = contributions_to(id, rest);
            assert(own.push(last).drop_last() =~= own);
            assert(own.push(last).last() == last);
        }
    }
}

/// A contribution to another body changes nothing for this one.
pub proof fn lemma_foreign_contribution_changes_nothing(
    center: Vector,
    id: u64,
    contributions: Seq<ForceContribution>,
    foreign: ForceContribution,
)
    requires
        foreign.body != id,
    ensures
        net_on(center, id, contributions.push(foreign)) == net_on(center, id, contributions),
{
    assert(contributions.push(foreign).drop_last() =~= contributions);
    assert(contributions.push(foreign).last() == foreign);
}

/// The net force of two runs of contributions, one after the other, is the
/// sum of the net forces of each: every contribution counts once, wherever
/// it stands.
pub proof fn lemma_net_of_two_runs(
    center: Vector,
    id: u64,
    first: Seq<ForceContribution>,
    second: Seq<ForceContribution>,
)
    ensures
        net_on(center, id, first + second) == net_on(center, id, first).plus(
            net_on(center, id, second),
        ),
    decreases second.len(),
{
    if second.len() == 0 {
        assert(first + second =~= first);
    } else {
        let all = first + second;
        assert(all.drop_last() =~= first + second.drop_last());
        assert(all.last() == second.last());
        lemma_net_of_two_runs(center, id, first, second.drop_last());
    }
}

/// A force that acts at the centre of mass turns nothing.
pub proof fn lemma_force_at_center_has_no_torque(contribution: ForceContribution)
    ensures
        torque_about(contribution.point@, contribution) == Vector::zero(),
{
    let force = contribution.force@;
    assert(0 * force.x == 0 && 0 * force.y == 0 && 0 * force.z == 0);
}

/// The torque of a force whose arm from the centre stands at a right angle
/// to it: before rounding its length is the length of the arm times the size
/// of the force, and it points where the right-hand rule says, at a right
/// angle to both. Rounding each component toward zero takes less than one
/// step from it.
pub proof fn lemma_torque_of_perpendicular_force(center: Vector, contribution: ForceContribution)
    requires
        contribution.point@.minus(center).dot_raw(contribution.force@) == 0,
    ensures
        ({
            let arm = contribution.point@.minus(center);
            let force = contribution.force@;
            let exact = arm.cross_raw(force);
            &&& torque_about(center, contribution) == exact.rescaled()
            &&& exact.norm_sq_raw() == arm.norm_sq_raw() * force.norm_sq_raw()
            &&& arm.dot_raw(exact) == 0
            &&& force.dot_raw(exact) == 0
            &&& determinant(arm, force, exact) >= 0
        }),
{
    let arm = contribution.point@.minus(center);
    let force = contribution.force@;
    lemma_cross_of_perpendicular(arm, force);
    lemma_cross_is_right_handed(arm, force);
}

/// Where no two bodies share an id, each body's forces are taken about its
/// own centre of mass.
pub proof fn lemma_distinct_bodies_own_center(bodies: Seq<Body>, index: int)
    requires
        distinct_ids(bodies),
        0 <= index < bodies.len(),
    ensures
        owner_of(bodies, bodies[index].id) == index,
        center_of(bodies, bodies[index].id) == bodies[index].position@,
{
    let id = bodies[index].id;
    assert forall|k: int| 0 <= k < index implies (#[trigger] bodies[k]).id != id by {
        assert(bodies[k].id != bodies[index].id);
    }
    assert(is_owner(bodies, id, index));
    lemma_owner_unique(bodies, id, index, index);
}

/// The sum of any number of contributions stays within that number of
/// times the limits of one.
pub proof fn lemma_net_within(center: Vector, id: u64, contributions: Seq<ForceContribution>)
    requires
        center.within(LIMIT as int),
        forall|k: int| 0 <= k < contributions.len() ==> (#[trigger] contributions[k]).wf(),
    ensures
        net_on(center, id, contributions).force.within(contributions.len() * FORCE_LIMIT),
        net_on(center, id, contributions).torque.within(contributions.len() * TORQUE_LIMIT),
    decreases contributions.len(),
{
    if contributions.len() > 0 {
        let last = contributions.last();
        let rest = contributions.drop_last();
        assert forall|k: int| 0 <= k < rest.len() implies (#[trigger] rest[k]).wf() by {
            assert(rest[k] == contributions[k]);
        }
        lemma_net_within(center, id, rest);
        assert(last.wf());
        lemma_torque_within(center, last);
    }
}

/// The torque of one contribution about a centre within `LIMIT` stays
/// within `TORQUE_LIMIT`.
pub proof fn lemma_torque_within(center: Vector, contribution: ForceContribution)
    requires
        center.within(LIMIT as int),
        contribution.wf(),
    ensures
        torque_about(center, contribution).within(TORQUE_LIMIT as int),
{
    let arm = contribution.point@.minus(center);
    let force = contribution.force@;
    let reach = 2 * LIMIT as int;
    let limit = FORCE_LIMIT as int;
    lemma_product_within(arm.y, force.z, reach, limit);
    lemma_product_within(arm.z, force.y, reach, limit);
    lemma_product_within(arm.z, force.x, reach, limit);
    lemma_product_within(arm.x, force.z, reach, limit);
    lemma_product_within(arm.x, force.y, reach, limit);
    lemma_product_within(arm.y, force.x, reach, limit);
    let raw = arm.cross_raw(force);
    lemma_rescale_within(raw.x, 2 * (reach * limit));
    lemma_rescale_within(raw.y, 2 * (reach * limit));
    lemma_rescale_within(raw.z, 2 * (reach * limit));
}

} // verus!

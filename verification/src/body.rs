//! Rigid bodies as the force model sees them, and the forces that act on
//! them.

use crate::config::{fits, VehicleConfig, VehicleKind};
use crate::fixed::{within, LIMIT};
use crate::vector::{Vec3, Vector, WideVec3};
use vstd::prelude::*;

verus! {

/// Net force and torque on a body, as handed to the rigid-body solver.
#[derive(Clone, Copy, Debug, PartialEq, Eq, Structural)]
pub struct ExternalForce {
    pub force: WideVec3,
    pub torque: WideVec3,
}

/// One force of one tick: what acts, where in the world, and on which body.
#[derive(Clone, Copy, Debug, PartialEq, Eq, Structural)]
pub struct ForceContribution {
    pub force: Vec3,
    pub point: Vec3,
    pub body: u64,
}

/// Why a force could not be handed out.
#[derive(Clone, Copy, Debug, PartialEq, Eq, Structural)]
pub enum ForceError {
    /// A component of the force is larger than `FORCE_LIMIT`.
    OutOfRange,
}

/// A car or a trailer at the start of a tick.
///
/// `position` is the centre of mass in the world. `curve_log` is the
/// common logarithm, at this tick's speed, of the number that
/// [`crate::power::curve_point`] asks for, in thousandths and rounded down;
/// it is read on the two flanks of the power curve only.
#[derive(Clone, Copy, Debug, PartialEq, Eq, Structural)]
pub struct Body {
    pub id: u64,
    pub kind: VehicleKind,
    pub config: VehicleConfig,
    pub position: Vec3,
    pub linear_velocity: Vec3,
    pub angular_velocity: Vec3,
    pub mass: i64,
    pub curve_log: i64,
    pub external_force: ExternalForce,
}

/// Length of a debug arrow for a force of one unit.
pub const ARROW_SCALE: i64 = 40;

/// Largest magnitude of one component of the velocity of a point of a body.
pub const POINT_VELOCITY_LIMIT: i64 = 4_000_001_000_000_000;

impl ExternalForce {
    /// No force and no torque.
    pub open spec fn none() -> ExternalForce {
        ExternalForce {
            force: WideVec3 { x: 0, y: 0, z: 0 },
            torque: WideVec3 { x: 0, y: 0, z: 0 },
        }
    }

    pub fn zero() -> (r: ExternalForce)
        ensures
            r == Self::none(),
    {
        ExternalForce { force: WideVec3 { x: 0, y: 0, z: 0 }, torque: WideVec3 { x: 0, y: 0, z: 0 } }
    }
}

impl ForceContribution {
    /// The force is within `FORCE_LIMIT` and acts at a point within `LIMIT`.
    pub open spec fn wf(self) -> bool {
        self.force.is_force() && self.point.bounded()
    }

    /// Tells whether the contribution may be handed to the aggregator.
    pub fn is_valid(&self) -> (r: bool)
        ensures
            r == self.wf(),
    {
        self.force.fits(crate::fixed::FORCE_LIMIT) && self.point.is_bounded()
    }

    /// The arrow that shows the force in a debug view: from the point at
    /// which the force acts, a twenty-fifth of the force long.
    pub fn arrow(&self) -> (r: (Vec3, Vec3))
        requires
            self.wf(),
        ensures
            r.0 == self.point,
            r.1@ == self.force@.scaled(ARROW_SCALE as int),
    {
        let wide = WideVec3::from_vec3(self.force).scaled(
            ARROW_SCALE as i128,
            Ghost(1_000_000_000_000int),
            Ghost(40int),
        );
        (self.point, Vec3 { x: wide.x as i64, y: wide.y as i64, z: wide.z as i64 })
    }
}

impl Body {
    /// Pose, velocities and configuration are within `LIMIT`, and the mass
    /// is not negative.
    pub open spec fn wf(self) -> bool {
        &&& self.config.wf()
        &&& self.position.bounded()
        &&& self.linear_velocity.bounded()
        &&& self.angular_velocity.bounded()
        &&& 0 <= self.mass <= LIMIT
        &&& within(self.curve_log as int, LIMIT as int)
    }

    /// Velocity of the point of the body that is now at `point`: the linear
    /// velocity plus the angular velocity crossed with the arm from the
    /// centre of mass.
    pub open spec fn velocity_at(self, point: Vector) -> Vector {
        self.linear_velocity@.plus(self.angular_velocity@.cross(point.minus(self.position@)))
    }

    /// Tells whether the body may be handed to the force model.
    pub fn is_valid(&self) -> (r: bool)
        ensures
            r == self.wf(),
    {
        self.config.is_valid() && self.position.is_bounded() && self.linear_velocity.is_bounded()
            && self.angular_velocity.is_bounded() && 0 <= self.mass && self.mass <= LIMIT && fits(
            self.curve_log,
        )
    }

    pub(crate) fn wide_velocity_at(&self, point: Vec3) -> (r: WideVec3)
        requires
            self.wf(),
            point.bounded(),
        ensures
            r@ == self.velocity_at(point@),
            r@.within(POINT_VELOCITY_LIMIT as int),
    {
        let arm = WideVec3::from_vec3(point).minus(
            WideVec3::from_vec3(self.position),
            Ghost(1_000_000_000int),
            Ghost(1_000_000_000int),
        );
        let swing = WideVec3::from_vec3(self.angular_velocity).cross(
            arm,
            Ghost(1_000_000_000int),
            Ghost(2_000_000_000int),
        );
        WideVec3::from_vec3(self.linear_velocity).plus(
            swing,
            Ghost(1_000_000_000int),
            Ghost(4_000_000_000_000_000int),
        )
    }

    /// Velocity of the point of the body that is now at `point`.
    pub fn velocity_at_point(&self, point: Vec3) -> (r: Vec3)
        requires
            self.wf(),
            point.bounded(),
        ensures
            r@ == self.velocity_at(point@),
            r@.within(POINT_VELOCITY_LIMIT as int),
    {
        let wide = self.wide_velocity_at(point);
        Vec3 { x: wide.x as i64, y: wide.y as i64, z: wide.z as i64 }
    }
}

/// `index` is the first place in `bodies` at which a body has the id `id`.
pub open spec fn is_owner(bodies: Seq<Body>, id: u64, index: int) -> bool {
    &&& 0 <= index < bodies.len()
    &&& bodies[index].id == id
    &&& forall|k: int| 0 <= k < index ==> (#[trigger] bodies[k]).id != id
}

/// Some body has the id `id`.
pub open spec fn has_body(bodies: Seq<Body>, id: u64) -> bool {
    exists|index: int| 0 <= index < bodies.len() && (#[trigger] bodies[index]).id == id
}

/// The first place in `bodies` at which a body has the id `id`.
pub open spec fn owner_of(bodies: Seq<Body>, id: u64) -> int {
    choose|index: int| is_owner(bodies, id, index)
}

/// No two bodies share an id.
pub open spec fn distinct_ids(bodies: Seq<Body>) -> bool {
    forall|i: int, j: int|
        0 <= i < j < bodies.len() ==> (#[trigger] bodies[i]).id != (#[trigger] bodies[j]).id
}

/// Finds the first body that has the id `id`.
pub fn find_body(bodies: &Vec<Body>, id: u64) -> (r: Option<usize>)
    ensures
        match r {
            Some(index) => is_owner(bodies@, id, index as int) && index == owner_of(bodies@, id),
            None => !has_body(bodies@, id),
        },
{
    let mut i: usize = 0;
    while i < bodies.len()
        invariant
            i <= bodies.len(),
            forall|k: int| 0 <= k < i ==> (#[trigger] bodies@[k]).id != id,
        decreases bodies.len() - i,
    {
        if bodies[i].id == id {
            proof {
                assert(is_owner(bodies@, id, i as int));
                lemma_owner_unique(bodies@, id, i as int, owner_of(bodies@, id));
            }
            return Some(i);
        }
        i += 1;
    }
    None
}

/// Why no single body of a kind could be named.
#[derive(Clone, Copy, Debug, PartialEq, Eq, Structural)]
pub enum SingletonError {
    /// There is no body of the kind.
    Missing,
    /// There are two bodies of the kind, or more.
    Multiple,
}

/// Finds the one body of the given kind.
///
/// Whoever needs exactly one car, or exactly one trailer, and finds none or
/// several, is told so and can skip the tick.
pub fn single_of_kind(bodies: &Vec<Body>, kind: VehicleKind) -> (r: Result<usize, SingletonError>)
    ensures
        match r {
            Ok(index) => index < bodies.len() && bodies[index as int].kind == kind && forall|k: int|
                0 <= k < bodies.len() && (#[trigger] bodies[k]).kind == kind ==> k == index,
            Err(SingletonError::Missing) => forall|k: int|
                0 <= k < bodies.len() ==> (#[trigger] bodies[k]).kind != kind,
            Err(SingletonError::Multiple) => exists|j: int, k: int|
                0 <= j < k < bodies.len() && (#[trigger] bodies[j]).kind == kind && (
                #[trigger] bodies[k]).kind == kind,
        },
{
    let mut found: Option<usize> = None;
    let mut i: usize = 0;
    while i < bodies.len()
        invariant
            i <= bodies.len(),
            match found {
                Some(index) => index < i && bodies[index as int].kind == kind && forall|k: int|
                    0 <= k < i && (#[trigger] bodies[k]).kind == kind ==> k == index,
                None => forall|k: int| 0 <= k < i ==> (#[trigger] bodies[k]).kind != kind,
            },
        decreases bodies.len() - i,
    {
        if bodies[i].kind == kind {
            match found {
                Some(index) => {
                    assert(bodies[index as int].kind == kind && bodies[i as int].kind == kind);
                    return Err(SingletonError::Multiple);
                },
                None => {
                    found = Some(i);
                },
            }
        }
        i += 1;
    }
    match found {
        Some(index) => Ok(index),
        None => Err(SingletonError::Missing),
    }
}

/// At most one place is the first at which a body has a given id.
pub proof fn lemma_owner_unique(bodies: Seq<Body>, id: u64, first: int, second: int)
    requires
        is_owner(bodies, id, first),
    ensures
        is_owner(bodies, id, second) ==> first == second,
        owner_of(bodies, id) == first,
{
    if is_owner(bodies, id, second) {
        if first < second {
            assert(bodies[first].id != id);
        } else if second < first {
            assert(bodies[second].id != id);
        }
    }
    let chosen = owner_of(bodies, id);
    assert(is_owner(bodies, id, chosen));
    if first < chosen {
        assert(bodies[first].id != id);
    } else if chosen < first {
        assert(bodies[chosen].id != id);
    }
}

/// Where some body has the id `id`, one of them is the first to have it.
pub proof fn lemma_owner_is_first(bodies: Seq<Body>, id: u64)
    requires
        has_body(bodies, id),
    ensures
        is_owner(bodies, id, owner_of(bodies, id)),
{
    let k = choose|k: int| 0 <= k < bodies.len() && (#[trigger] bodies[k]).id == id;
    lemma_first_exists(bodies, id, k);
}

/// If the body at `index` has the id `id`, some body is the first to have
/// it, at `index` or before.
pub proof fn lemma_first_exists(bodies: Seq<Body>, id: u64, index: int)
    requires
        0 <= index < bodies.len(),
        bodies[index].id == id,
    ensures
        has_body(bodies, id),
        owner_of(bodies, id) <= index,
        is_owner(bodies, id, owner_of(bodies, id)),
    decreases index,
{
    if exists|k: int| 0 <= k < index && (#[trigger] bodies[k]).id == id {
        let k = choose|k: int| 0 <= k < index && (#[trigger] bodies[k]).id == id;
        lemma_first_exists(bodies, id, k);
    } else {
        assert(is_owner(bodies, id, index));
        lemma_owner_unique(bodies, id, index, index);
    }
}

} // verus!

//! Tires: what they are, where they stand, and whether they touch ground.

use crate::config::VehicleConfig;
use crate::fixed::{div_toward_zero, trunc_div};
use crate::vector::Vec3;
use vstd::prelude::*;

verus! {

/// Which axle a tire sits on. Only front tires steer.
#[derive(Clone, Copy, Debug, PartialEq, Eq, Structural)]
pub enum TireLocation {
    Front,
    Back,
}

/// The fixed attributes of a tire.
#[derive(Clone, Copy, Debug, PartialEq, Eq, Structural)]
pub struct Tire {
    pub connected_to_engine: bool,
    pub location: TireLocation,
}

/// Where a tire is in the world and how it is turned, steering included.
///
/// `forward` is the rolling direction, `up` the direction the spring pushes
/// in, `side` the axle's direction; each is a unit vector in thousandths.
#[derive(Clone, Copy, Debug, PartialEq, Eq, Structural)]
pub struct TirePose {
    pub position: Vec3,
    pub forward: Vec3,
    pub up: Vec3,
    pub side: Vec3,
}

/// A tire in one tick: its owner, its pose, and what the ray cast straight
/// down from it met, if anything.
#[derive(Clone, Copy, Debug, PartialEq, Eq)]
pub struct TireState {
    pub owner: u64,
    pub tire: Tire,
    pub pose: TirePose,
    pub ground_distance: Option<i64>,
}

impl TirePose {
    /// The position is within `LIMIT` and no axis is longer than a unit
    /// along any coordinate.
    pub open spec fn wf(self) -> bool {
        &&& self.position.bounded()
        &&& self.forward.is_axis()
        &&& self.up.is_axis()
        &&& self.side.is_axis()
    }

    /// Tells whether the pose may be handed to the force model.
    pub fn is_valid(&self) -> (r: bool)
        ensures
            r == self.wf(),
    {
        self.position.is_bounded() && self.forward.fits(crate::fixed::AXIS_LIMIT) && self.up.fits(
            crate::fixed::AXIS_LIMIT,
        ) && self.side.fits(crate::fixed::AXIS_LIMIT)
    }
}

/// A ray to be cast into the world.
///
/// A ray that is not `solid` reports the ground's surface even where it
/// starts inside the ground; one that is `static_only` sees nothing that
/// moves.
#[derive(Clone, Copy, Debug, PartialEq, Eq, Structural)]
pub struct RayQuery {
    pub origin: Vec3,
    pub direction: Vec3,
    pub max_distance: i64,
    pub solid: bool,
    pub static_only: bool,
}

/// The ray met ground no farther away than `reach`.
pub open spec fn in_contact(distance: Option<i64>, reach: int) -> bool {
    match distance {
        Some(d) => 0 <= d <= reach,
        None => false,
    }
}

/// How far the ground may be for the tire to grip it: a quarter more than
/// the spring's rest length.
pub open spec fn traction_reach_of(config: VehicleConfig) -> int {
    trunc_div(config.spring_offset * 5, 4)
}

/// Tells whether the ray met ground no farther away than `reach`.
pub fn touches(distance: Option<i64>, reach: i64) -> (r: bool)
    ensures
        r == in_contact(distance, reach as int),
{
    match distance {
        Some(d) => 0 <= d && d <= reach,
        None => false,
    }
}

/// How far the ground may be for the tire to grip it.
pub fn traction_reach(config: &VehicleConfig) -> (r: i64)
    requires
        config.wf(),
    ensures
        r == traction_reach_of(*config),
{
    div_toward_zero(config.spring_offset * 5, 4)
}


impl TireState {
    /// The pose may be handed to the force model.
    pub open spec fn wf(self) -> bool {
        self.pose.wf()
    }

    /// The tire stands on ground that the spring reaches.
    pub open spec fn sprung(self, config: VehicleConfig) -> bool {
        in_contact(self.ground_distance, config.spring_offset as int)
    }

    /// The tire stands on ground that it can grip.
    pub open spec fn grounded(self, config: VehicleConfig) -> bool {
        in_contact(self.ground_distance, traction_reach_of(config))
    }

    /// Tells whether the tire may be handed to the force model.
    pub fn is_valid(&self) -> (r: bool)
        ensures
            r == self.wf(),
    {
        self.pose.is_valid()
    }

    /// Tells whether the tire stands on ground that the spring reaches.
    pub fn is_sprung(&self, config: &VehicleConfig) -> (r: bool)
        ensures
            r == self.sprung(*config),
    {
        touches(self.ground_distance, config.spring_offset)
    }

    /// Tells whether the tire stands on ground that it can grip.
    pub fn is_grounded(&self, config: &VehicleConfig) -> (r: bool)
        requires
            config.wf(),
        ensures
            r == self.grounded(*config),
    {
        touches(self.ground_distance, traction_reach(config))
    }
}

/// The ray that looks for the ground under a tire: from the tire straight
/// down along its spring, as far as the tire can grip, against what stands
/// still only.
pub fn ground_ray(pose: &TirePose, config: &VehicleConfig) -> (r: RayQuery)
    requires
        pose.wf(),
        config.wf(),
    ensures
        r.origin == pose.position,
        r.direction@ == pose.up@.negated(),
        r.max_distance == traction_reach_of(*config),
        !r.solid,
        r.static_only,
{
    RayQuery {
        origin: pose.position,
        direction: Vec3 { x: -pose.up.x, y: -pose.up.y, z: -pose.up.z },
        max_distance: traction_reach(config),
        solid: false,
        static_only: true,
    }
}

} // verus!

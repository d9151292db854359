//! The tunable parameters of one vehicle type.

use crate::fixed::{within, LIMIT};
use crate::vector::Vec3;
use vstd::prelude::*;

verus! {

/// The two vehicle types that are built from a preset.
#[derive(Clone, Copy, Debug, PartialEq, Eq, Structural)]
pub enum VehicleKind {
    Car,
    Trailer,
}

/// Dimensions, suspension, drivetrain limits and steering lock of a vehicle.
///
/// Lengths are half-extents of the body box; `anchor_point` is where the
/// coupling to the other vehicle attaches, in the body's own frame.
#[derive(Clone, Copy, Debug, PartialEq, Eq, Structural)]
pub struct VehicleConfig {
    pub height: i64,
    pub width: i64,
    pub length: i64,
    pub wheelbase: i64,
    pub wheel_offset: i64,
    pub spring_offset: i64,
    pub spring_power: i64,
    pub shock: i64,
    pub max_speed: i64,
    pub max_force: i64,
    pub turn_radius: i64,
    pub anchor_point: Vec3,
}

/// A parameter that can be changed while the simulation runs.
#[derive(Clone, Copy, Debug, PartialEq, Eq, Structural)]
pub enum Tunable {
    MaxSpeed,
    MaxForce,
    SpringOffset,
    SpringPower,
    Shock,
    Height,
    Width,
    Length,
    TurnRadius,
}

/// A quarter turn's half: the widest steering lock that tuning allows.
pub const MAX_TURN_RADIUS: i64 = 785;

impl Tunable {
    /// Smallest value that tuning may give the parameter.
    pub open spec fn lowest(self) -> int {
        match self {
            Tunable::MaxSpeed => 5_000,
            Tunable::MaxForce => 50_000,
            Tunable::SpringOffset => 0,
            Tunable::SpringPower => 0,
            Tunable::Shock => 0,
            Tunable::Height => 100,
            Tunable::Width => 100,
            Tunable::Length => 100,
            Tunable::TurnRadius => 0,
        }
    }

    /// Largest value that tuning may give the parameter.
    pub open spec fn highest(self) -> int {
        match self {
            Tunable::MaxSpeed => 200_000,
            Tunable::MaxForce => 1_000_000,
            Tunable::SpringOffset => 10_000,
            Tunable::SpringPower => 500_000,
            Tunable::Shock => 100_000,
            Tunable::Height => 10_000,
            Tunable::Width => 10_000,
            Tunable::Length => 10_000,
            Tunable::TurnRadius => MAX_TURN_RADIUS as int,
        }
    }

    /// Whether the parameter is one of the half-extents of the body box.
    pub open spec fn is_extent(self) -> bool {
        self == Tunable::Height || self == Tunable::Width || self == Tunable::Length
    }

    /// The range that tuning keeps the parameter in, ends included.
    pub fn range(self) -> (r: (i64, i64))
        ensures
            r.0 == self.lowest(),
            r.1 == self.highest(),
            0 <= r.0 <= r.1 <= LIMIT,
    {
        match self {
            Tunable::MaxSpeed => (5_000, 200_000),
            Tunable::MaxForce => (50_000, 1_000_000),
            Tunable::SpringOffset => (0, 10_000),
            Tunable::SpringPower => (0, 500_000),
            Tunable::Shock => (0, 100_000),
            Tunable::Height => (100, 10_000),
            Tunable::Width => (100, 10_000),
            Tunable::Length => (100, 10_000),
            Tunable::TurnRadius => (0, MAX_TURN_RADIUS),
        }
    }
}

/// `value` moved to the nearer end of `[low, high]` if it lies outside.
pub open spec fn clamped(value: int, low: int, high: int) -> int {
    if value < low {
        low
    } else if value > high {
        high
    } else {
        value
    }
}

/// `value` moved to the nearer end of `[low, high]` if it lies outside.
pub fn clamp(value: i64, low: i64, high: i64) -> (r: i64)
    requires
        low <= high,
    ensures
        r == clamped(value as int, low as int, high as int),
        low <= r <= high,
{
    if value < low {
        low
    } else if value > high {
        high
    } else {
        value
    }
}

impl VehicleConfig {
    /// Every parameter is a measured quantity within `LIMIT`.
    pub open spec fn wf(self) -> bool {
        &&& within(self.height as int, LIMIT as int)
        &&& within(self.width as int, LIMIT as int)
        &&& within(self.length as int, LIMIT as int)
        &&& within(self.wheelbase as int, LIMIT as int)
        &&& within(self.wheel_offset as int, LIMIT as int)
        &&& within(self.spring_offset as int, LIMIT as int)
        &&& within(self.spring_power as int, LIMIT as int)
        &&& within(self.shock as int, LIMIT as int)
        &&& within(self.max_speed as int, LIMIT as int)
        &&& within(self.max_force as int, LIMIT as int)
        &&& within(self.turn_radius as int, LIMIT as int)
        &&& self.anchor_point.bounded()
    }

    /// The preset of the driven car.
    pub open spec fn car_preset() -> VehicleConfig {
        VehicleConfig {
            height: 726,
            width: 1_015,
            length: 2_656,
            wheelbase: 1_560,
            wheel_offset: 0,
            spring_offset: 1_253,
            spring_power: 300_000,
            shock: 45_000,
            max_speed: 50_000,
            max_force: 100_000,
            turn_radius: 458,
            anchor_point: Vec3 { x: (-3_443) as i64, y: (-700) as i64, z: 0 },
        }
    }

    /// The preset of the towed trailer: no spring, no engine, no steering.
    pub open spec fn trailer_preset() -> VehicleConfig {
        VehicleConfig {
            height: 91,
            width: 1_080,
            length: 3_938,
            wheelbase: 500,
            wheel_offset: (-1_000) as i64,
            spring_offset: 1_000,
            spring_power: 0,
            shock: 0,
            max_speed: 0,
            max_force: 0,
            turn_radius: 0,
            anchor_point: Vec3 { x: 4_725, y: (-91) as i64, z: 0 },
        }
    }

    /// The preset that `kind` names.
    pub open spec fn preset_of(kind: VehicleKind) -> VehicleConfig {
        match kind {
            VehicleKind::Car => Self::car_preset(),
            VehicleKind::Trailer => Self::trailer_preset(),
        }
    }

    /// The value of the parameter that `field` names.
    pub open spec fn value_of(self, field: Tunable) -> int {
        match field {
            Tunable::MaxSpeed => self.max_speed as int,
            Tunable::MaxForce => self.max_force as int,
            Tunable::SpringOffset => self.spring_offset as int,
            Tunable::SpringPower => self.spring_power as int,
            Tunable::Shock => self.shock as int,
            Tunable::Height => self.height as int,
            Tunable::Width => self.width as int,
            Tunable::Length => self.length as int,
            Tunable::TurnRadius => self.turn_radius as int,
        }
    }

    /// The configuration with the parameter that `field` names set to `value`.
    pub open spec fn with_value(self, field: Tunable, value: i64) -> VehicleConfig {
        match field {
            Tunable::MaxSpeed => VehicleConfig { max_speed: value, ..self },
            Tunable::MaxForce => VehicleConfig { max_force: value, ..self },
            Tunable::SpringOffset => VehicleConfig { spring_offset: value, ..self },
            Tunable::SpringPower => VehicleConfig { spring_power: value, ..self },
            Tunable::Shock => VehicleConfig { shock: value, ..self },
            Tunable::Height => VehicleConfig { height: value, ..self },
            Tunable::Width => VehicleConfig { width: value, ..self },
            Tunable::Length => VehicleConfig { length: value, ..self },
            Tunable::TurnRadius => VehicleConfig { turn_radius: value, ..self },
        }
    }

    /// The half-extents of the body box differ between the two.
    pub open spec fn extents_differ(self, other: VehicleConfig) -> bool {
        self.height != other.height || self.width != other.width || self.length != other.length
    }

    /// Tells whether every parameter is within `LIMIT`.
    pub fn is_valid(&self) -> (r: bool)
        ensures
            r == self.wf(),
    {
        fits(self.height) && fits(self.width) && fits(self.length) && fits(self.wheelbase) && fits(
            self.wheel_offset,
        ) && fits(self.spring_offset) && fits(self.spring_power) && fits(self.shock) && fits(
            self.max_speed,
        ) && fits(self.max_force) && fits(self.turn_radius) && self.anchor_point.is_bounded()
    }

    /// The preset that `kind` names.
    pub fn preset(kind: VehicleKind) -> (r: VehicleConfig)
        ensures
            r == Self::preset_of(kind),
            r.wf(),
    {
        match kind {
            VehicleKind::Car => VehicleConfig {
                height: 726,
                width: 1_015,
                length: 2_656,
                wheelbase: 1_560,
                wheel_offset: 0,
                spring_offset: 1_253,
                spring_power: 300_000,
                shock: 45_000,
                max_speed: 50_000,
                max_force: 100_000,
                turn_radius: 458,
                anchor_point: Vec3 { x: -3_443, y: -700, z: 0 },
            },
            VehicleKind::Trailer => VehicleConfig {
                height: 91,
                width: 1_080,
                length: 3_938,
                wheelbase: 500,
                wheel_offset: -1_000,
                spring_offset: 1_000,
                spring_power: 0,
                shock: 0,
                max_speed: 0,
                max_force: 0,
                turn_radius: 0,
                anchor_point: Vec3 { x: 4_725, y: -91, z: 0 },
            },
        }
    }

    /// Reads the parameter that `field` names.
    pub fn get(&self, field: Tunable) -> (r: i64)
        ensures
            r == self.value_of(field),
    {
        match field {
            Tunable::MaxSpeed => self.max_speed,
            Tunable::MaxForce => self.max_force,
            Tunable::SpringOffset => self.spring_offset,
            Tunable::SpringPower => self.spring_power,
            Tunable::Shock => self.shock,
            Tunable::Height => self.height,
            Tunable::Width => self.width,
            Tunable::Length => self.length,
            Tunable::TurnRadius => self.turn_radius,
        }
    }

    /// Sets one parameter from the tuning panel.
    ///
    /// The value is first brought into the parameter's range. The result
    /// tells whether the body box changed its size, in which case the
    /// collision shape and the mesh made from it have to be built anew.
    pub fn tune(&mut self, field: Tunable, value: i64) -> (rebuild: bool)
        ensures
            *final(self) == old(self).with_value(
                field,
                clamped(value as int, field.lowest(), field.highest()) as i64,
            ),
            rebuild == old(self).extents_differ(*final(self)),
            !field.is_extent() ==> !rebuild,
            old(self).wf() ==> final(self).wf(),
    {
        let (low, high) = field.range();
        let set = clamp(value, low, high);
        let before = *self;
        match field {
            Tunable::MaxSpeed => {
                self.max_speed = set;
            },
            Tunable::MaxForce => {
                self.max_force = set;
            },
            Tunable::SpringOffset => {
                self.spring_offset = set;
            },
            Tunable::SpringPower => {
                self.spring_power = set;
            },
            Tunable::Shock => {
                self.shock = set;
            },
            Tunable::Height => {
                self.height = set;
            },
            Tunable::Width => {
                self.width = set;
            },
            Tunable::Length => {
                self.length = set;
            },
            Tunable::TurnRadius => {
                self.turn_radius = set;
            },
        }
        before.height != self.height || before.width != self.width || before.length != self.length
    }
}

/// Tells whether a measured quantity is within `LIMIT`.
pub fn fits(value: i64) -> (r: bool)
    ensures
        r == within(value as int, LIMIT as int),
{
    -LIMIT <= value && value <= LIMIT
}

} // verus!

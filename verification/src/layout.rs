//! What a vehicle is built from: where the body starts, how large its box
//! is, and where tires and lights are mounted on it.

use crate::config::{VehicleConfig, VehicleKind};
use crate::fixed::{div_toward_zero, trunc_div};
use crate::tire::{Tire, TireLocation};
use crate::vector::{Vec3, Vector};
use vstd::prelude::*;

verus! {

/// Height above the origin at which a vehicle is set down.
pub const SPAWN_HEIGHT: i64 = 10_000;

/// Friction coefficient of the body box against whatever it touches.
pub const BODY_FRICTION: i64 = 500;

/// How far the tail lights sit inside the side faces of the body box.
pub const TAIL_LIGHT_INSET: i64 = 125;

/// Edge length of a tail light.
pub const TAIL_LIGHT_SIZE: i64 = 250;

/// One of the four corners of a vehicle.
#[derive(Clone, Copy, Debug, PartialEq, Eq, Structural)]
pub enum WheelSlot {
    FrontRight,
    FrontLeft,
    BackRight,
    BackLeft,
}

/// A tire and the place it is mounted at, in the body's own frame.
#[derive(Clone, Copy, Debug, PartialEq, Eq, Structural)]
pub struct TireMount {
    pub slot: WheelSlot,
    pub offset: Vec3,
    pub tire: Tire,
}

/// Everything that is needed to put one vehicle into the world.
#[derive(Clone, Copy, Debug, PartialEq, Eq)]
pub struct VehiclePlan {
    pub kind: VehicleKind,
    pub config: VehicleConfig,
    /// Where the body is set down.
    pub position: Vec3,
    /// Half-extents of the body box along its length, height and width.
    pub half_extents: Vec3,
    pub friction: i64,
    pub front_right: TireMount,
    pub front_left: TireMount,
    pub back_right: TireMount,
    pub back_left: TireMount,
    /// Where the camera wants to be, on the car only.
    pub camera_seat: Option<Vec3>,
    /// Right and left headlight, on the car only.
    pub headlights: Option<(Vec3, Vec3)>,
    /// Right and left tail light.
    pub tail_lights: (Vec3, Vec3),
}

/// Where a vehicle of the given kind is set down: the car ahead of the
/// origin and the trailer behind it, so that their anchors meet there.
pub open spec fn spawn_point(config: VehicleConfig, kind: VehicleKind) -> Vector {
    match kind {
        VehicleKind::Car => Vector {
            x: config.length + config.anchor_point.x,
            y: SPAWN_HEIGHT as int,
            z: 0,
        },
        VehicleKind::Trailer => Vector {
            x: -config.length - config.anchor_point.x,
            y: SPAWN_HEIGHT as int,
            z: 0,
        },
    }
}

/// Whether the slot is on the front axle.
pub open spec fn is_front(slot: WheelSlot) -> bool {
    slot == WheelSlot::FrontRight || slot == WheelSlot::FrontLeft
}

/// Whether the slot is on the right side.
pub open spec fn is_right(slot: WheelSlot) -> bool {
    slot == WheelSlot::FrontRight || slot == WheelSlot::BackRight
}

/// Where the tire of the given slot is mounted: half a wheelbase ahead of
/// or behind the shifted axle centre, a third of the half-height below the
/// centre, and flush with the side.
pub open spec fn mount_point(config: VehicleConfig, slot: WheelSlot) -> Vector {
    Vector {
        x: if is_front(slot) {
            config.wheel_offset + config.wheelbase
        } else {
            config.wheel_offset - config.wheelbase
        },
        y: trunc_div(-config.height, 3),
        z: if is_right(slot) {
            config.width as int
        } else {
            -config.width
        },
    }
}

/// The tire that a vehicle of the given kind carries in the given slot: the
/// car drives and steers with its front tires, everything else rolls along.
pub open spec fn tire_of(kind: VehicleKind, slot: WheelSlot) -> Tire {
    if kind == VehicleKind::Car && is_front(slot) {
        Tire { connected_to_engine: true, location: TireLocation::Front }
    } else {
        Tire { connected_to_engine: false, location: TireLocation::Back }
    }
}

/// `mount` is what a vehicle of the given kind carries in the given slot.
pub open spec fn is_mount_of(
    mount: TireMount,
    config: VehicleConfig,
    kind: VehicleKind,
    slot: WheelSlot,
) -> bool {
    mount.slot == slot && mount.offset@ == mount_point(config, slot) && mount.tire == tire_of(
        kind,
        slot,
    )
}

/// Where the tail light of the given side sits: on the rear face, a third
/// of the half-height above the centre, a little inside the side face.
pub open spec fn tail_light_point(config: VehicleConfig, right: bool) -> Vector {
    Vector {
        x: -config.length,
        y: trunc_div(config.height as int, 3),
        z: if right {
            config.width - TAIL_LIGHT_INSET
        } else {
            TAIL_LIGHT_INSET - config.width
        },
    }
}

/// Where the headlight of the given side sits: on the front face, at the
/// height of the centre.
pub open spec fn headlight_point(config: VehicleConfig, right: bool) -> Vector {
    Vector {
        x: config.length as int,
        y: 0,
        z: if right {
            -config.width
        } else {
            config.width as int
        },
    }
}

/// Where the camera wants to be relative to the car.
pub open spec fn camera_seat_point() -> Vector {
    Vector { x: -40_000, y: 40_000, z: 0 }
}

/// `plan` is the plan of a vehicle of the given kind with the given
/// configuration.
pub open spec fn is_plan_of(plan: VehiclePlan, config: VehicleConfig, kind: VehicleKind) -> bool {
    &&& plan.kind == kind
    &&& plan.config == config
    &&& plan.position@ == spawn_point(config, kind)
    &&& plan.half_extents == (Vec3 { x: config.length, y: config.height, z: config.width })
    &&& plan.friction == BODY_FRICTION
    &&& is_mount_of(plan.front_right, config, kind, WheelSlot::FrontRight)
    &&& is_mount_of(plan.front_left, config, kind, WheelSlot::FrontLeft)
    &&& is_mount_of(plan.back_right, config, kind, WheelSlot::BackRight)
    &&& is_mount_of(plan.back_left, config, kind, WheelSlot::BackLeft)
    &&& match plan.camera_seat {
        Some(seat) => kind == VehicleKind::Car && seat@ == camera_seat_point(),
        None => kind == VehicleKind::Trailer,
    }
    &&& match plan.headlights {
        Some((right, left)) => kind == VehicleKind::Car && right@ == headlight_point(config, true)
            && left@ == headlight_point(config, false),
        None => kind == VehicleKind::Trailer,
    }
    &&& plan.tail_lights.0@ == tail_light_point(config, true)
    &&& plan.tail_lights.1@ == tail_light_point(config, false)
}

/// Where a vehicle of the given kind is set down.
pub fn spawn_position(config: &VehicleConfig, kind: VehicleKind) -> (r: Vec3)
    requires
        config.wf(),
    ensures
        r@ == spawn_point(*config, kind),
{
    match kind {
        VehicleKind::Car => Vec3 {
            x: config.length + config.anchor_point.x,
            y: SPAWN_HEIGHT,
            z: 0,
        },
        VehicleKind::Trailer => Vec3 {
            x: -config.length - config.anchor_point.x,
            y: SPAWN_HEIGHT,
            z: 0,
        },
    }
}

/// The tire of the given slot and the place it is mounted at.
pub fn tire_mount(config: &VehicleConfig, kind: VehicleKind, slot: WheelSlot) -> (r: TireMount)
    requires
        config.wf(),
    ensures
        is_mount_of(r, *config, kind, slot),
{
    let front = match slot {
        WheelSlot::FrontRight => true,
        WheelSlot::FrontLeft => true,
        WheelSlot::BackRight => false,
        WheelSlot::BackLeft => false,
    };
    let right = match slot {
        WheelSlot::FrontRight => true,
        WheelSlot::FrontLeft => false,
        WheelSlot::BackRight => true,
        WheelSlot::BackLeft => false,
    };
    let driven = match kind {
        VehicleKind::Car => front,
        VehicleKind::Trailer => false,
    };
    let x = if front {
        config.wheel_offset + config.wheelbase
    } else {
        config.wheel_offset - config.wheelbase
    };
    let z = if right {
        config.width
    } else {
        -config.width
    };
    let tire = if driven {
        Tire { connected_to_engine: true, location: TireLocation::Front }
    } else {
        Tire { connected_to_engine: false, location: TireLocation::Back }
    };
    TireMount { slot, offset: Vec3 { x, y: div_toward_zero(-config.height, 3), z }, tire }
}

fn plan(config: VehicleConfig, kind: VehicleKind) -> (r: VehiclePlan)
    requires
        config.wf(),
    ensures
        is_plan_of(r, config, kind),
{
    let third = div_toward_zero(config.height, 3);
    let tail_lights = (
        Vec3 { x: -config.length, y: third, z: config.width - TAIL_LIGHT_INSET },
        Vec3 { x: -config.length, y: third, z: TAIL_LIGHT_INSET - config.width },
    );
    let (camera_seat, headlights) = match kind {
        VehicleKind::Car => (
            Some(Vec3 { x: -40_000, y: 40_000, z: 0 }),
            Some(
                (
                    Vec3 { x: config.length, y: 0, z: -config.width },
                    Vec3 { x: config.length, y: 0, z: config.width },
                ),
            ),
        ),
        VehicleKind::Trailer => (None, None),
    };
    VehiclePlan {
        kind,
        config,
        position: spawn_position(&config, kind),
        half_extents: Vec3 { x: config.length, y: config.height, z: config.width },
        friction: BODY_FRICTION,
        front_right: tire_mount(&config, kind, WheelSlot::FrontRight),
        front_left: tire_mount(&config, kind, WheelSlot::FrontLeft),
        back_right: tire_mount(&config, kind, WheelSlot::BackRight),
        back_left: tire_mount(&config, kind, WheelSlot::BackLeft),
        camera_seat,
        headlights,
        tail_lights,
    }
}

/// Plans the driven car: two driven, steered tires in front, two rolling
/// tires behind, a camera seat, headlights and tail lights.
pub fn spawn_car(vehicle_config: VehicleConfig) -> (r: VehiclePlan)
    requires
        vehicle_config.wf(),
    ensures
        is_plan_of(r, vehicle_config, VehicleKind::Car),
{
    plan(vehicle_config, VehicleKind::Car)
}

/// Plans the towed trailer: four rolling tires and tail lights.
pub fn spawn_trailer(vehicle_config: VehicleConfig) -> (r: VehiclePlan)
    requires
        vehicle_config.wf(),
    ensures
        is_plan_of(r, vehicle_config, VehicleKind::Trailer),
{
    plan(vehicle_config, VehicleKind::Trailer)
}

/// The points at which the coupling between car and trailer attaches, each
/// in the frame of its own body.
pub fn coupling_anchors(car: &VehicleConfig, trailer: &VehicleConfig) -> (r: (Vec3, Vec3))
    ensures
        r.0 == car.anchor_point,
        r.1 == trailer.anchor_point,
{
    (car.anchor_point, trailer.anchor_point)
}

} // verus!

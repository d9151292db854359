use vehicle_forces::config::{VehicleConfig, VehicleKind};
use vehicle_forces::layout::{
    coupling_anchors, spawn_car, spawn_position, spawn_trailer, tire_mount, TireMount, WheelSlot,
};
use vehicle_forces::tire::{Tire, TireLocation};
use vehicle_forces::vector::Vec3;

#[test]
fn car_is_set_down_ahead_of_the_origin() {
    let config = VehicleConfig::preset(VehicleKind::Car);
    let plan = spawn_car(config);
    assert_eq!(plan.kind, VehicleKind::Car);
    assert_eq!(plan.config, config);
    assert_eq!(plan.position, Vec3::new(-787, 10_000, 0));
    assert_eq!(plan.half_extents, Vec3::new(2_656, 726, 1_015));
    assert_eq!(plan.friction, 500);
}

#[test]
fn car_drives_and_steers_with_its_front_tires() {
    let plan = spawn_car(VehicleConfig::preset(VehicleKind::Car));
    let driven = Tire { connected_to_engine: true, location: TireLocation::Front };
    let rolling = Tire { connected_to_engine: false, location: TireLocation::Back };
    assert_eq!(
        plan.front_right,
        TireMount { slot: WheelSlot::FrontRight, offset: Vec3::new(1_560, -242, 1_015), tire: driven }
    );
    assert_eq!(
        plan.front_left,
        TireMount { slot: WheelSlot::FrontLeft, offset: Vec3::new(1_560, -242, -1_015), tire: driven }
    );
    assert_eq!(
        plan.back_right,
        TireMount { slot: WheelSlot::BackRight, offset: Vec3::new(-1_560, -242, 1_015), tire: rolling }
    );
    assert_eq!(
        plan.back_left,
        TireMount { slot: WheelSlot::BackLeft, offset: Vec3::new(-1_560, -242, -1_015), tire: rolling }
    );
}

#[test]
fn car_carries_camera_seat_and_lights() {
    let plan = spawn_car(VehicleConfig::preset(VehicleKind::Car));
    assert_eq!(plan.camera_seat, Some(Vec3::new(-40_000, 40_000, 0)));
    assert_eq!(
        plan.headlights,
        Some((Vec3::new(2_656, 0, -1_015), Vec3::new(2_656, 0, 1_015)))
    );
    assert_eq!(
        plan.tail_lights,
        (Vec3::new(-2_656, 242, 890), Vec3::new(-2_656, 242, -890))
    );
}

#[test]
fn trailer_is_set_down_behind_the_origin() {
    let config = VehicleConfig::preset(VehicleKind::Trailer);
    let plan = spawn_trailer(config);
    assert_eq!(plan.kind, VehicleKind::Trailer);
    assert_eq!(plan.position, Vec3::new(-8_663, 10_000, 0));
    assert_eq!(plan.half_extents, Vec3::new(3_938, 91, 1_080));
    assert_eq!(plan.camera_seat, None);
    assert_eq!(plan.headlights, None);
    assert_eq!(
        plan.tail_lights,
        (Vec3::new(-3_938, 30, 955), Vec3::new(-3_938, 30, -955))
    );
}

#[test]
fn trailer_tires_only_roll() {
    let plan = spawn_trailer(VehicleConfig::preset(VehicleKind::Trailer));
    let rolling = Tire { connected_to_engine: false, location: TireLocation::Back };
    assert_eq!(plan.front_right.tire, rolling);
    assert_eq!(plan.front_left.tire, rolling);
    assert_eq!(plan.back_right.tire, rolling);
    assert_eq!(plan.back_left.tire, rolling);
    assert_eq!(plan.front_right.offset, Vec3::new(-500, -30, 1_080));
    assert_eq!(plan.front_left.offset, Vec3::new(-500, -30, -1_080));
    assert_eq!(plan.back_right.offset, Vec3::new(-1_500, -30, 1_080));
    assert_eq!(plan.back_left.offset, Vec3::new(-1_500, -30, -1_080));
}

#[test]
fn anchors_meet_at_the_origin() {
    let car = VehicleConfig::preset(VehicleKind::Car);
    let trailer = VehicleConfig::preset(VehicleKind::Trailer);
    let (front, back) = coupling_anchors(&car, &trailer);
    assert_eq!(front, Vec3::new(-3_443, -700, 0));
    assert_eq!(back, Vec3::new(4_725, -91, 0));
    let car_at = spawn_position(&car, VehicleKind::Car);
    let trailer_at = spawn_position(&trailer, VehicleKind::Trailer);
    // Seen from the car the anchor lies as far behind the centre as the
    // car was moved ahead, and the other way round for the trailer.
    assert_eq!(car_at.x - car.length, front.x);
    assert_eq!(trailer_at.x + trailer.length, -back.x);
}

#[test]
fn mounts_follow_the_configuration() {
    let mut config = VehicleConfig::preset(VehicleKind::Car);
    config.wheelbase = 2_000;
    config.wheel_offset = 300;
    config.height = 900;
    config.width = 1_200;
    let mount = tire_mount(&config, VehicleKind::Car, WheelSlot::BackLeft);
    assert_eq!(mount.offset, Vec3::new(-1_700, -300, -1_200));
    let mount = tire_mount(&config, VehicleKind::Trailer, WheelSlot::FrontRight);
    assert_eq!(mount.offset, Vec3::new(2_300, -300, 1_200));
    assert!(!mount.tire.connected_to_engine);
}

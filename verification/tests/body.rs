use vehicle_forces::body::{
    single_of_kind, Body, ExternalForce, ForceContribution, SingletonError,
};
use vehicle_forces::config::{VehicleConfig, VehicleKind};
use vehicle_forces::vector::{Vec3, WideVec3};

fn body(id: u64, kind: VehicleKind) -> Body {
    Body {
        id,
        kind,
        config: VehicleConfig::preset(kind),
        position: Vec3::new(0, 0, 0),
        linear_velocity: Vec3::new(0, 0, 0),
        angular_velocity: Vec3::new(0, 0, 0),
        mass: 1_000_000,
        curve_log: 0,
        external_force: ExternalForce::zero(),
    }
}

#[test]
fn the_only_car_is_found() {
    let bodies = vec![body(1, VehicleKind::Trailer), body(2, VehicleKind::Car)];
    assert_eq!(single_of_kind(&bodies, VehicleKind::Car), Ok(1));
    assert_eq!(single_of_kind(&bodies, VehicleKind::Trailer), Ok(0));
}

#[test]
fn a_missing_car_is_reported() {
    let bodies = vec![body(1, VehicleKind::Trailer)];
    assert_eq!(single_of_kind(&bodies, VehicleKind::Car), Err(SingletonError::Missing));
    assert_eq!(single_of_kind(&Vec::new(), VehicleKind::Car), Err(SingletonError::Missing));
}

#[test]
fn a_second_car_is_reported() {
    let bodies = vec![
        body(1, VehicleKind::Car),
        body(2, VehicleKind::Trailer),
        body(3, VehicleKind::Car),
    ];
    assert_eq!(single_of_kind(&bodies, VehicleKind::Car), Err(SingletonError::Multiple));
    assert_eq!(single_of_kind(&bodies, VehicleKind::Trailer), Ok(1));
}

#[test]
fn velocity_of_a_point_adds_the_swing_of_the_body() {
    let mut spinning = body(1, VehicleKind::Car);
    spinning.position = Vec3::new(1_000, 2_000, 3_000);
    spinning.linear_velocity = Vec3::new(500, 0, 0);
    spinning.angular_velocity = Vec3::new(0, 2_000, 0);
    // Two radians a second about y, three metres out along x.
    assert_eq!(spinning.velocity_at_point(Vec3::new(4_000, 2_000, 3_000)), Vec3::new(500, 0, -6_000));
    assert_eq!(spinning.velocity_at_point(spinning.position), Vec3::new(500, 0, 0));
    // Points on the axis do not swing.
    assert_eq!(spinning.velocity_at_point(Vec3::new(1_000, 9_000, 3_000)), Vec3::new(500, 0, 0));
}

#[test]
fn bodies_out_of_range_are_turned_away() {
    let mut b = body(1, VehicleKind::Car);
    assert!(b.is_valid());
    b.mass = -1;
    assert!(!b.is_valid());
    b.mass = 1_000_000_001;
    assert!(!b.is_valid());
    b.mass = 0;
    assert!(b.is_valid());
    b.linear_velocity = Vec3::new(0, 0, -1_000_000_001);
    assert!(!b.is_valid());
    b.linear_velocity = Vec3::new(0, 0, -1_000_000_000);
    b.curve_log = i64::MIN;
    assert!(!b.is_valid());
}

#[test]
fn debug_arrow_is_a_twenty_fifth_of_the_force() {
    let push = ForceContribution {
        force: Vec3::new(75_900, -1_000, 24),
        point: Vec3::new(1, 2, 3),
        body: 1,
    };
    assert_eq!(push.arrow(), (Vec3::new(1, 2, 3), Vec3::new(3_036, -40, 0)));
}

#[test]
fn contributions_out_of_range_are_turned_away() {
    let mut push = ForceContribution {
        force: Vec3::new(1_000_000_000_000, 0, 0),
        point: Vec3::new(1_000_000_000, 0, 0),
        body: 1,
    };
    assert!(push.is_valid());
    push.force.x += 1;
    assert!(!push.is_valid());
    push.force.x = 0;
    push.point.z = -1_000_000_001;
    assert!(!push.is_valid());
    let w = WideVec3 { x: 1, y: 2, z: 3 };
    assert_ne!(w, WideVec3::zero());
}

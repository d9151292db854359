use vehicle_forces::body::{Body, ExternalForce, ForceContribution};
use vehicle_forces::config::{VehicleConfig, VehicleKind};
use vehicle_forces::steering::{
    cornering_force, steering_angle, steering_intent, SteerKeys, CORRECTION_GAIN, GRIP_STRENGTH,
};
use vehicle_forces::body::ForceError;
use vehicle_forces::tire::{Tire, TireLocation, TirePose, TireState};
use vehicle_forces::vector::{Vec3, WideVec3};

fn car(velocity: Vec3) -> Body {
    Body {
        id: 3,
        kind: VehicleKind::Car,
        config: VehicleConfig::preset(VehicleKind::Car),
        position: Vec3::new(0, 0, 0),
        linear_velocity: velocity,
        angular_velocity: Vec3::new(0, 0, 0),
        mass: 1_000_000,
        curve_log: 0,
        external_force: ExternalForce { force: WideVec3::zero(), torque: WideVec3::zero() },
    }
}

fn tire(ground_distance: Option<i64>) -> TireState {
    TireState {
        owner: 3,
        tire: Tire { connected_to_engine: false, location: TireLocation::Back },
        pose: TirePose {
            position: Vec3::new(-1_560, -242, 1_015),
            forward: Vec3::new(1_000, 0, 0),
            up: Vec3::new(0, 1_000, 0),
            side: Vec3::new(0, 0, -1_000),
        },
        ground_distance,
    }
}

#[test]
fn keys_steer_full_lock() {
    let none = Vec::new();
    assert_eq!(steering_intent(&SteerKeys { left: false, right: false }, &none), 0);
    assert_eq!(steering_intent(&SteerKeys { left: true, right: false }, &none), 1_000);
    assert_eq!(steering_intent(&SteerKeys { left: false, right: true }, &none), -1_000);
    assert_eq!(steering_intent(&SteerKeys { left: true, right: true }, &none), -1_000);
}

#[test]
fn stick_overrides_the_keys_when_off_centre() {
    let left = SteerKeys { left: true, right: false };
    assert_eq!(steering_intent(&left, &vec![Some(500)]), -500);
    assert_eq!(steering_intent(&left, &vec![Some(-250)]), 250);
    assert_eq!(steering_intent(&left, &vec![Some(0)]), 1_000);
    assert_eq!(steering_intent(&left, &vec![None]), 1_000);
    assert_eq!(steering_intent(&left, &vec![Some(500), None, Some(0)]), -500);
    assert_eq!(steering_intent(&left, &vec![Some(500), Some(-1_000)]), 1_000);
    assert_eq!(steering_intent(&left, &vec![Some(4_000)]), -1_000);
    assert_eq!(steering_intent(&left, &vec![Some(i64::MIN)]), 1_000);
}

#[test]
fn front_tires_turn_up_to_the_lock() {
    let config = VehicleConfig::preset(VehicleKind::Car);
    let front = Tire { connected_to_engine: true, location: TireLocation::Front };
    assert_eq!(steering_angle(&front, &config, 1_000), Some(458));
    assert_eq!(steering_angle(&front, &config, -1_000), Some(-458));
    assert_eq!(steering_angle(&front, &config, -500), Some(-229));
    assert_eq!(steering_angle(&front, &config, 0), Some(0));
}

#[test]
fn rear_tires_never_steer() {
    let config = VehicleConfig::preset(VehicleKind::Car);
    let rear = Tire { connected_to_engine: true, location: TireLocation::Back };
    assert_eq!(steering_angle(&rear, &config, 1_000), None);
    assert_eq!(steering_angle(&rear, &config, 0), None);
}

#[test]
fn cornering_cancels_a_share_of_the_slide() {
    // Sliding at 2 m/s along +z: 0.7 of it, times the gain of 60, on a
    // quarter of 1000 kg, is 21 kN along -z.
    assert_eq!(GRIP_STRENGTH, 700);
    assert_eq!(CORRECTION_GAIN, 60_000);
    let body = car(Vec3::new(0, 0, 2_000));
    assert_eq!(
        cornering_force(&body, &tire(Some(1_000)), 4, CORRECTION_GAIN),
        Ok(Some(ForceContribution {
            force: Vec3::new(0, 0, -21_000_000),
            point: Vec3::new(-1_560, -242, 1_015),
            body: 3,
        }))
    );
    let body = car(Vec3::new(0, 0, -2_000));
    assert_eq!(
        cornering_force(&body, &tire(Some(1_000)), 4, CORRECTION_GAIN).unwrap().unwrap().force,
        Vec3::new(0, 0, 21_000_000)
    );
}

#[test]
fn cornering_does_not_depend_on_which_way_the_axle_points() {
    let body = car(Vec3::new(0, 0, 2_000));
    let mut flipped = tire(Some(1_000));
    flipped.pose.side = Vec3::new(0, 0, 1_000);
    assert_eq!(
        cornering_force(&body, &flipped, 4, CORRECTION_GAIN).unwrap().unwrap().force,
        Vec3::new(0, 0, -21_000_000)
    );
}

#[test]
fn cornering_leaves_rolling_alone() {
    let body = car(Vec3::new(9_000, -300, 0));
    assert_eq!(
        cornering_force(&body, &tire(Some(1_000)), 4, CORRECTION_GAIN).unwrap().unwrap().force,
        Vec3::new(0, 0, 0)
    );
}

#[test]
fn cornering_shares_the_mass_between_the_tires() {
    let body = car(Vec3::new(0, 0, 2_000));
    let two = cornering_force(&body, &tire(Some(1_000)), 2, CORRECTION_GAIN).unwrap().unwrap();
    let eight = cornering_force(&body, &tire(Some(1_000)), 8, CORRECTION_GAIN).unwrap().unwrap();
    assert_eq!(two.force, Vec3::new(0, 0, -42_000_000));
    assert_eq!(eight.force, Vec3::new(0, 0, -10_500_000));
    let crowd = cornering_force(&body, &tire(Some(1_000)), usize::MAX, CORRECTION_GAIN);
    assert_eq!(crowd.unwrap().unwrap().force, Vec3::new(0, 0, 0));
}

#[test]
fn cornering_scales_with_the_gain() {
    let body = car(Vec3::new(0, 0, 2_000));
    let one = cornering_force(&body, &tire(Some(1_000)), 4, 1_000).unwrap().unwrap();
    let five = cornering_force(&body, &tire(Some(1_000)), 4, 5_000).unwrap().unwrap();
    assert_eq!(one.force, Vec3::new(0, 0, -350_000));
    assert_eq!(five.force, Vec3::new(0, 0, -1_750_000));
}

#[test]
fn cornering_follows_a_steered_tire() {
    let body = car(Vec3::new(10_000, 0, 0));
    let mut steered = tire(Some(1_000));
    steered.pose.forward = Vec3::new(800, 0, -600);
    steered.pose.side = Vec3::new(-600, 0, -800);
    // lateral = -6 m/s; wanted change 4.2 m/s; times 60 on 250 kg = 63 kN
    assert_eq!(
        cornering_force(&body, &steered, 4, CORRECTION_GAIN).unwrap().unwrap().force,
        Vec3::new(-37_800_000, 0, -50_400_000)
    );
}

#[test]
fn airborne_tire_has_no_cornering_force() {
    let body = car(Vec3::new(0, 0, 2_000));
    assert_eq!(cornering_force(&body, &tire(None), 4, CORRECTION_GAIN), Ok(None));
    assert_eq!(cornering_force(&body, &tire(Some(1_567)), 4, CORRECTION_GAIN), Ok(None));
    assert!(cornering_force(&body, &tire(Some(1_566)), 4, CORRECTION_GAIN).unwrap().is_some());
}

#[test]
fn cornering_force_too_large_is_an_error() {
    let mut body = car(Vec3::new(0, 0, 1_000_000_000));
    body.mass = 1_000_000_000;
    assert_eq!(
        cornering_force(&body, &tire(Some(1_000)), 1, 1_000_000_000),
        Err(ForceError::OutOfRange)
    );
}

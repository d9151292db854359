use vehicle_forces::body::{Body, ExternalForce, ForceContribution, ForceError};
use vehicle_forces::config::{VehicleConfig, VehicleKind};
use vehicle_forces::suspension::suspension_force;
use vehicle_forces::tire::{Tire, TireLocation, TirePose, TireState};
use vehicle_forces::vector::{Vec3, WideVec3};

fn car(id: u64) -> Body {
    Body {
        id,
        kind: VehicleKind::Car,
        config: VehicleConfig::preset(VehicleKind::Car),
        position: Vec3::new(0, 0, 0),
        linear_velocity: Vec3::new(0, 0, 0),
        angular_velocity: Vec3::new(0, 0, 0),
        mass: 1_000_000,
        curve_log: 0,
        external_force: ExternalForce { force: WideVec3::zero(), torque: WideVec3::zero() },
    }
}

fn tire_at(position: Vec3, ground_distance: Option<i64>) -> TireState {
    TireState {
        owner: 1,
        tire: Tire { connected_to_engine: true, location: TireLocation::Front },
        pose: TirePose {
            position,
            forward: Vec3::new(1_000, 0, 0),
            up: Vec3::new(0, 1_000, 0),
            side: Vec3::new(0, 0, -1_000),
        },
        ground_distance,
    }
}

#[test]
fn spring_at_rest_length_exerts_no_force() {
    let body = car(1);
    let tire = tire_at(Vec3::new(1_000, 0, 0), Some(1_253));
    let force = suspension_force(&body, &tire).unwrap().unwrap();
    assert_eq!(force.force, Vec3::new(0, 0, 0));
    assert_eq!(force.point, Vec3::new(1_000, 0, 0));
    assert_eq!(force.body, 1);
}

#[test]
fn pressed_spring_pushes_away_from_the_ground() {
    let body = car(1);
    let tire = tire_at(Vec3::new(1_000, 0, 0), Some(1_000));
    // 0.253 m of compression at 300 N/m
    assert_eq!(
        suspension_force(&body, &tire),
        Ok(Some(ForceContribution {
            force: Vec3::new(0, 75_900, 0),
            point: Vec3::new(1_000, 0, 0),
            body: 1,
        }))
    );
}

#[test]
fn spring_force_is_linear_in_stiffness() {
    let mut body = car(1);
    let tire = tire_at(Vec3::new(1_000, 0, 0), Some(1_000));
    body.config.spring_power = 100_000;
    let single = suspension_force(&body, &tire).unwrap().unwrap().force.y;
    body.config.spring_power = 200_000;
    let double = suspension_force(&body, &tire).unwrap().unwrap().force.y;
    body.config.spring_power = 400_000;
    let fourfold = suspension_force(&body, &tire).unwrap().unwrap().force.y;
    assert_eq!(single, 25_300);
    assert_eq!(double, 2 * single);
    assert_eq!(fourfold, 4 * single);
    assert!(single > 0);
}

#[test]
fn damper_resists_the_closing_velocity() {
    let mut body = car(1);
    let tire = tire_at(Vec3::new(1_000, 0, 0), Some(1_000));
    // Falling at 2 m/s: the damper adds 2 * 45 N to the spring's 75.9 N.
    body.linear_velocity = Vec3::new(0, -2_000, 0);
    assert_eq!(suspension_force(&body, &tire).unwrap().unwrap().force, Vec3::new(0, 165_900, 0));
    // Rising at 1 m/s: the damper takes 45 N away.
    body.linear_velocity = Vec3::new(0, 1_000, 0);
    assert_eq!(suspension_force(&body, &tire).unwrap().unwrap().force, Vec3::new(0, 30_900, 0));
    // Rising fast enough, the damper wins and the force pulls down.
    body.linear_velocity = Vec3::new(0, 4_000, 0);
    assert_eq!(suspension_force(&body, &tire).unwrap().unwrap().force, Vec3::new(0, -104_100, 0));
}

#[test]
fn rotation_of_the_body_moves_the_tire() {
    let mut body = car(1);
    let tire = tire_at(Vec3::new(1_000, 0, 0), Some(1_000));
    // One radian a second about z lifts a tire one metre ahead at 1 m/s.
    body.angular_velocity = Vec3::new(0, 0, 1_000);
    assert_eq!(body.velocity_at_point(tire.pose.position), Vec3::new(0, 1_000, 0));
    assert_eq!(suspension_force(&body, &tire).unwrap().unwrap().force, Vec3::new(0, 30_900, 0));
    // The arm is taken from the centre of mass.
    body.position = Vec3::new(1_000, 0, 0);
    assert_eq!(body.velocity_at_point(tire.pose.position), Vec3::new(0, 0, 0));
    assert_eq!(suspension_force(&body, &tire).unwrap().unwrap().force, Vec3::new(0, 75_900, 0));
}

#[test]
fn force_follows_the_tilted_spring() {
    let body = car(1);
    let mut tire = tire_at(Vec3::new(1_000, 0, 0), Some(1_000));
    tire.pose.up = Vec3::new(600, 800, 0);
    assert_eq!(suspension_force(&body, &tire).unwrap().unwrap().force, Vec3::new(45_540, 60_720, 0));
}

#[test]
fn airborne_tire_has_no_suspension_force() {
    let mut body = car(1);
    body.linear_velocity = Vec3::new(3_000, -9_000, 500);
    assert_eq!(suspension_force(&body, &tire_at(Vec3::new(1_000, 0, 0), None)), Ok(None));
    // Ground beyond the rest length of the spring is no ground.
    assert_eq!(suspension_force(&body, &tire_at(Vec3::new(1_000, 0, 0), Some(1_254))), Ok(None));
    assert!(suspension_force(&body, &tire_at(Vec3::new(1_000, 0, 0), Some(1_253)))
        .unwrap()
        .is_some());
    // A distance behind the tire is no hit.
    assert_eq!(suspension_force(&body, &tire_at(Vec3::new(1_000, 0, 0), Some(-1))), Ok(None));
}

#[test]
fn trailer_spring_has_no_power() {
    let mut body = car(2);
    body.kind = VehicleKind::Trailer;
    body.config = VehicleConfig::preset(VehicleKind::Trailer);
    body.linear_velocity = Vec3::new(0, -5_000, 0);
    let tire = tire_at(Vec3::new(0, 0, 0), Some(500));
    assert_eq!(suspension_force(&body, &tire).unwrap().unwrap().force, Vec3::new(0, 0, 0));
}

#[test]
fn force_too_large_is_an_error() {
    let mut body = car(1);
    body.config.shock = 1_000_000_000;
    body.linear_velocity = Vec3::new(0, -1_000_000_000, 0);
    let tire = tire_at(Vec3::new(1_000, 0, 0), Some(1_000));
    assert_eq!(suspension_force(&body, &tire), Err(ForceError::OutOfRange));
    // Just inside the limit.
    body.config.shock = 1_000_000;
    body.config.spring_power = 0;
    body.linear_velocity = Vec3::new(0, -1_000_000, 0);
    assert_eq!(
        suspension_force(&body, &tire).unwrap().unwrap().force,
        Vec3::new(0, 1_000_000_000, 0)
    );
}

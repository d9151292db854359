use vehicle_forces::body::{Body, ExternalForce};
use vehicle_forces::config::{VehicleConfig, VehicleKind};
use vehicle_forces::drivetrain::{PadButton, PadEvent};
use vehicle_forces::reset::{reset_car, reset_requested};
use vehicle_forces::vector::{Vec3, WideVec3};

fn moving(id: u64, kind: VehicleKind) -> Body {
    Body {
        id,
        kind,
        config: VehicleConfig::preset(kind),
        position: Vec3::new(123_000, -40_000, 9_000),
        linear_velocity: Vec3::new(5_000, -20_000, 1),
        angular_velocity: Vec3::new(300, 200, 100),
        mass: 1_000_000,
        curve_log: -523,
        external_force: ExternalForce {
            force: WideVec3 { x: 1, y: 2, z: 3 },
            torque: WideVec3 { x: 4, y: 5, z: 6 },
        },
    }
}

#[test]
fn reset_key_asks_for_a_reset() {
    assert!(reset_requested(true, &Vec::new()));
    assert!(!reset_requested(false, &Vec::new()));
}

#[test]
fn start_button_asks_for_a_reset() {
    let pressed = PadEvent { button: PadButton::Start, value: 1_000 };
    let released = PadEvent { button: PadButton::Start, value: 0 };
    let trigger = PadEvent { button: PadButton::RightTrigger2, value: 1_000 };
    let other = PadEvent { button: PadButton::Other, value: 1_000 };
    assert!(reset_requested(false, &vec![pressed]));
    assert!(reset_requested(false, &vec![trigger, released, pressed, other]));
    assert!(!reset_requested(false, &vec![released]));
    assert!(!reset_requested(false, &vec![trigger, other, released]));
    assert!(reset_requested(true, &vec![released]));
}

#[test]
fn reset_puts_every_body_back_at_rest() {
    let mut bodies = vec![moving(1, VehicleKind::Car), moving(2, VehicleKind::Trailer)];
    let before = bodies.clone();
    reset_car(true, &mut bodies);
    assert_eq!(bodies.len(), 2);
    assert_eq!(bodies[0].position, Vec3::new(-787, 10_000, 0));
    assert_eq!(bodies[1].position, Vec3::new(-8_663, 10_000, 0));
    for (after, before) in bodies.iter().zip(before.iter()) {
        assert_eq!(after.linear_velocity, Vec3::new(0, 0, 0));
        assert_eq!(after.angular_velocity, Vec3::new(0, 0, 0));
        assert_eq!(
            Body {
                position: before.position,
                linear_velocity: before.linear_velocity,
                angular_velocity: before.angular_velocity,
                ..*after
            },
            *before
        );
    }
}

#[test]
fn without_a_request_nothing_moves() {
    let mut bodies = vec![moving(1, VehicleKind::Car), moving(2, VehicleKind::Trailer)];
    let before = bodies.clone();
    reset_car(false, &mut bodies);
    assert_eq!(bodies, before);
    let mut nobody: Vec<Body> = Vec::new();
    reset_car(true, &mut nobody);
    assert!(nobody.is_empty());
}

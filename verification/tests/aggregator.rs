use vehicle_forces::aggregator::{at_point, sum_all_forces};
use vehicle_forces::body::{find_body, Body, ExternalForce, ForceContribution};
use vehicle_forces::config::{VehicleConfig, VehicleKind};
use vehicle_forces::vector::{Vec3, WideVec3};

fn wide(x: i128, y: i128, z: i128) -> WideVec3 {
    WideVec3 { x, y, z }
}

fn body(id: u64, kind: VehicleKind, position: Vec3) -> Body {
    Body {
        id,
        kind,
        config: VehicleConfig::preset(kind),
        position,
        linear_velocity: Vec3::new(1, 2, 3),
        angular_velocity: Vec3::new(4, 5, 6),
        mass: 1_000_000,
        curve_log: -700,
        // What the tick before left behind.
        external_force: ExternalForce { force: wide(11, 22, 33), torque: wide(44, 55, 66) },
    }
}

fn push(force: Vec3, point: Vec3, body: u64) -> ForceContribution {
    ForceContribution { force, point, body }
}

#[test]
fn body_without_contributions_is_reset_to_zero() {
    let mut bodies = vec![body(1, VehicleKind::Car, Vec3::new(0, 0, 0))];
    sum_all_forces(&mut bodies, &Vec::new());
    assert_eq!(bodies[0].external_force.force, wide(0, 0, 0));
    assert_eq!(bodies[0].external_force.torque, wide(0, 0, 0));
    // Running it again changes nothing.
    sum_all_forces(&mut bodies, &Vec::new());
    assert_eq!(bodies[0].external_force, ExternalForce { force: wide(0, 0, 0), torque: wide(0, 0, 0) });
}

#[test]
fn aggregator_touches_nothing_but_the_slot() {
    let before = body(1, VehicleKind::Car, Vec3::new(100, 200, 300));
    let mut bodies = vec![before];
    sum_all_forces(&mut bodies, &vec![push(Vec3::new(1_000, 0, 0), Vec3::new(0, 0, 0), 1)]);
    assert_eq!(bodies.len(), 1);
    assert_eq!(Body { external_force: before.external_force, ..bodies[0] }, before);
}

#[test]
fn force_at_the_centre_of_mass_gives_no_torque() {
    let centre = Vec3::new(2_000, -1_000, 500);
    let mut bodies = vec![body(1, VehicleKind::Car, centre)];
    sum_all_forces(&mut bodies, &vec![push(Vec3::new(3_000, -4_000, 5_000), centre, 1)]);
    assert_eq!(bodies[0].external_force.force, wide(3_000, -4_000, 5_000));
    assert_eq!(bodies[0].external_force.torque, wide(0, 0, 0));
}

#[test]
fn torque_is_arm_times_force_by_the_right_hand_rule() {
    let mut bodies = vec![body(1, VehicleKind::Car, Vec3::new(0, 0, 0))];
    // An arm of 2 m along z, a force of 3 N along x: 6 Nm about y.
    sum_all_forces(&mut bodies, &vec![push(Vec3::new(3_000, 0, 0), Vec3::new(0, 0, 2_000), 1)]);
    assert_eq!(bodies[0].external_force.torque, wide(0, 6_000, 0));
    // x cross y is z.
    sum_all_forces(&mut bodies, &vec![push(Vec3::new(0, 1_000, 0), Vec3::new(1_000, 0, 0), 1)]);
    assert_eq!(bodies[0].external_force.torque, wide(0, 0, 1_000));
    // y cross x is minus z.
    sum_all_forces(&mut bodies, &vec![push(Vec3::new(1_000, 0, 0), Vec3::new(0, 1_000, 0), 1)]);
    assert_eq!(bodies[0].external_force.torque, wide(0, 0, -1_000));
    // y cross z is x.
    sum_all_forces(&mut bodies, &vec![push(Vec3::new(0, 0, 5_000), Vec3::new(0, 4_000, 0), 1)]);
    assert_eq!(bodies[0].external_force.torque, wide(20_000, 0, 0));
}

#[test]
fn torque_is_taken_about_the_centre_of_mass() {
    let mut bodies = vec![body(1, VehicleKind::Car, Vec3::new(1_000, 1_000, 1_000))];
    sum_all_forces(&mut bodies, &vec![push(Vec3::new(0, 1_000, 0), Vec3::new(3_000, 1_000, 1_000), 1)]);
    assert_eq!(bodies[0].external_force.torque, wide(0, 0, 2_000));
    assert_eq!(
        at_point(&push(Vec3::new(0, 1_000, 0), Vec3::new(3_000, 1_000, 1_000), 1), Vec3::new(1_000, 1_000, 1_000)),
        ExternalForce { force: wide(0, 1_000, 0), torque: wide(0, 0, 2_000) }
    );
}

#[test]
fn contributions_add_up() {
    let mut bodies = vec![body(1, VehicleKind::Car, Vec3::new(0, 0, 0))];
    let contributions = vec![
        push(Vec3::new(0, 75_900, 0), Vec3::new(1_560, -242, 1_015), 1),
        push(Vec3::new(0, 75_900, 0), Vec3::new(1_560, -242, -1_015), 1),
        push(Vec3::new(0, 50_000, 0), Vec3::new(-1_560, -242, 1_015), 1),
        push(Vec3::new(69_900, 0, 0), Vec3::new(1_560, -242, 1_015), 1),
    ];
    sum_all_forces(&mut bodies, &contributions);
    assert_eq!(bodies[0].external_force.force, wide(69_900, 201_800, 0));
    // x: -z*Fy summed; y: z*Fx; z: x*Fy - y*Fx
    assert_eq!(
        bodies[0].external_force.torque,
        wide(-77_038 + 77_038 - 50_750, 70_948, 118_404 + 118_404 - 78_000 + 16_915)
    );
}

#[test]
fn sum_does_not_depend_on_the_order() {
    let a = push(Vec3::new(500, 75_900, -20), Vec3::new(1_560, -242, 1_015), 1);
    let b = push(Vec3::new(-900, 10, 33_000), Vec3::new(-1_560, -242, -1_015), 1);
    let c = push(Vec3::new(1, 2, 3), Vec3::new(7, 8, 9), 1);
    let mut first = vec![body(1, VehicleKind::Car, Vec3::new(10, 20, 30))];
    let mut second = first.clone();
    sum_all_forces(&mut first, &vec![a, b, c]);
    sum_all_forces(&mut second, &vec![c, a, b]);
    assert_eq!(first, second);
}

#[test]
fn each_body_gets_its_own_contributions_only() {
    let car = body(1, VehicleKind::Car, Vec3::new(0, 0, 0));
    let trailer = body(2, VehicleKind::Trailer, Vec3::new(-8_000, 0, 0));
    let on_car = vec![
        push(Vec3::new(69_900, 0, 0), Vec3::new(1_560, 0, 1_015), 1),
        push(Vec3::new(0, 75_900, 0), Vec3::new(1_560, 0, -1_015), 1),
    ];
    let on_trailer = vec![push(Vec3::new(0, 0, -4_000), Vec3::new(-9_000, 0, 0), 2)];
    let mut all = on_car.clone();
    all.extend(on_trailer.iter().copied());

    let mut both = vec![car, trailer];
    sum_all_forces(&mut both, &all);
    let mut car_alone = vec![car];
    sum_all_forces(&mut car_alone, &on_car);
    let mut trailer_alone = vec![trailer];
    sum_all_forces(&mut trailer_alone, &on_trailer);

    assert_eq!(both[0], car_alone[0]);
    assert_eq!(both[1], trailer_alone[0]);
    assert_eq!(both[0].external_force.force, wide(69_900, 75_900, 0));
    assert_eq!(both[1].external_force.force, wide(0, 0, -4_000));
    assert_eq!(both[1].external_force.torque, wide(0, -4_000, 0));
}

#[test]
fn car_forces_never_reach_the_trailer() {
    let mut bodies = vec![
        body(1, VehicleKind::Car, Vec3::new(0, 0, 0)),
        body(2, VehicleKind::Trailer, Vec3::new(-8_000, 0, 0)),
    ];
    let contributions = vec![
        push(Vec3::new(69_900, 0, 0), Vec3::new(1_560, 0, 1_015), 1),
        push(Vec3::new(0, 75_900, 0), Vec3::new(-8_000, 0, 0), 1),
    ];
    sum_all_forces(&mut bodies, &contributions);
    assert_eq!(bodies[1].external_force, ExternalForce { force: wide(0, 0, 0), torque: wide(0, 0, 0) });
    assert_eq!(bodies[0].external_force.force, wide(69_900, 75_900, 0));
}

#[test]
fn contribution_to_a_missing_body_is_passed_over() {
    let mut bodies = vec![body(1, VehicleKind::Car, Vec3::new(0, 0, 0))];
    let contributions = vec![
        push(Vec3::new(1_000, 0, 0), Vec3::new(0, 0, 0), 9),
        push(Vec3::new(0, 2_000, 0), Vec3::new(0, 0, 0), 1),
        push(Vec3::new(0, 0, 3_000), Vec3::new(0, 0, 0), 0),
    ];
    sum_all_forces(&mut bodies, &contributions);
    assert_eq!(bodies[0].external_force.force, wide(0, 2_000, 0));
    let mut nobody: Vec<Body> = Vec::new();
    sum_all_forces(&mut nobody, &contributions);
    assert!(nobody.is_empty());
}

#[test]
fn largest_single_torque_fits() {
    let mut bodies = vec![body(1, VehicleKind::Car, Vec3::new(-1_000_000_000, 0, 0))];
    let contribution = push(
        Vec3::new(0, 1_000_000_000_000, 0),
        Vec3::new(1_000_000_000, 0, 0),
        1,
    );
    assert!(contribution.is_valid());
    sum_all_forces(&mut bodies, &vec![contribution, contribution, contribution]);
    assert_eq!(bodies[0].external_force.force, wide(0, 3_000_000_000_000, 0));
    assert_eq!(bodies[0].external_force.torque, wide(0, 0, 6_000_000_000_000_000_000));
}

#[test]
fn bodies_are_found_by_id() {
    let bodies = vec![
        body(5, VehicleKind::Car, Vec3::new(0, 0, 0)),
        body(8, VehicleKind::Trailer, Vec3::new(0, 0, 0)),
        body(5, VehicleKind::Trailer, Vec3::new(0, 0, 0)),
    ];
    assert_eq!(find_body(&bodies, 5), Some(0));
    assert_eq!(find_body(&bodies, 8), Some(1));
    assert_eq!(find_body(&bodies, 1), None);
    assert_eq!(find_body(&Vec::new(), 5), None);
}

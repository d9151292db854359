use vehicle_forces::vector::Vec3;

#[test]
fn dot_of_unit_axes_is_zero() {
    let x = Vec3::new(1000, 0, 0);
    let y = Vec3::new(0, 1000, 0);
    assert_eq!(x.dot(y), 0);
    assert_eq!(x.dot(x), 1000);
}

#[test]
fn cross_is_right_handed() {
    let x = Vec3::new(1000, 0, 0);
    let y = Vec3::new(0, 1000, 0);
    assert_eq!(x.cross(y), Vec3::new(0, 0, 1000));
    assert_eq!(y.cross(x), Vec3::new(0, 0, -1000));
}

#[test]
fn length_rounds_down() {
    assert_eq!(Vec3::new(3000, 4000, 0).length(), 5000);
    assert_eq!(Vec3::new(1000, 1000, 0).length(), 1414);
    assert_eq!(Vec3::new(0, 0, 0).length(), 0);
}

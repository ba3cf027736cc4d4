use rover_motion::vector::{Direction, Vec3, UNIT};

#[test]
fn vec3_new_keeps_components() {
    let v = Vec3::new(1, -2, 3);
    assert_eq!((v.x, v.y, v.z), (1, -2, 3));
}

#[test]
fn vec3_zero_is_all_zero() {
    assert_eq!(Vec3::zero(), Vec3::new(0, 0, 0));
}

#[test]
fn unit_is_a_million() {
    assert_eq!(UNIT, 1_000_000);
}

#[test]
fn direction_along_an_axis() {
    let d = Direction::new(0, 0, -UNIT).unwrap();
    assert_eq!((d.x(), d.y(), d.z()), (0, 0, -1_000_000));
}

#[test]
fn direction_off_the_axes() {
    let d = Direction::new(600_000, 0, -800_000).unwrap();
    assert_eq!((d.x(), d.y(), d.z()), (600_000, 0, -800_000));
}

#[test]
fn direction_may_fall_short_by_two() {
    assert!(Direction::new(0, UNIT - 2, 0).is_some());
    assert!(Direction::new(0, 0, -(UNIT - 2)).is_some());
}

#[test]
fn direction_cut_off_from_a_unit_vector() {
    // (1, 1, 1) / sqrt(3), each component cut off to whole millionths
    assert!(Direction::new(577_350, 577_350, 577_350).is_some());
}

#[test]
fn direction_refuses_the_zero_vector() {
    assert_eq!(Direction::new(0, 0, 0), None);
}

#[test]
fn direction_refuses_a_short_vector() {
    assert_eq!(Direction::new(0, UNIT - 3, 0), None);
    assert_eq!(Direction::new(500_000, 500_000, 500_000), None);
}

#[test]
fn direction_refuses_a_long_vector() {
    assert_eq!(Direction::new(0, 0, UNIT + 1), None);
    assert_eq!(Direction::new(UNIT, UNIT, 0), None);
    assert_eq!(Direction::new(1, 0, UNIT), None);
}

#[test]
fn direction_refuses_the_largest_components() {
    assert_eq!(Direction::new(i64::MAX, i64::MAX, i64::MAX), None);
    assert_eq!(Direction::new(i64::MIN, 0, 0), None);
}

use coin_core::fx::bool_posneg;
use coin_core::fx::clamp;
use coin_core::ground::is_grounded;
use coin_core::rotation::YawRotation;
use coin_core::vec::Vec3Fx;

#[test]
fn clamp_picks_the_nearest_bound() {
    assert_eq!(clamp(-2000, -1100, 400), -1100);
    assert_eq!(clamp(2000, -1100, 400), 400);
    assert_eq!(clamp(-1100, -1100, 400), -1100);
    assert_eq!(clamp(400, -1100, 400), 400);
    assert_eq!(clamp(0, -1100, 400), 0);
}

#[test]
fn face_sign_multiplier() {
    assert_eq!(bool_posneg(true), 1);
    assert_eq!(bool_posneg(false), -1);
}

#[test]
fn identity_rotation_is_upright_reference() {
    let r = YawRotation::identity();
    assert!(!r.axis_flipped);
    assert_eq!(r.heading.x, 0);
    assert_eq!(r.heading.z, -1000);
}

#[test]
fn zero_vector_clears_a_channel() {
    assert_eq!(Vec3Fx::zero(), Vec3Fx { x: 0, y: 0, z: 0 });
    assert_eq!(Vec3Fx::new(1, 2, 3), Vec3Fx { x: 1, y: 2, z: 3 });
}

#[test]
fn negative_hit_distances_do_not_ground() {
    assert!(!is_grounded(&Some(-5), &None));
    assert!(!is_grounded(&None, &Some(-1)));
}

use coin_core::controller::InputSnapshot;
use coin_core::controller::MovementController;
use coin_core::orientation::BodyAttitude;
use coin_core::orientation::OrientationState;
use coin_core::orientation::classify;
use coin_core::vec::Vec3Fx;

fn orientation_with_up(up_y: i64) -> OrientationState {
    let prev = OrientationState::default();
    classify(&BodyAttitude { forward_x: 0, forward_z: -1000, up_y }, &prev)
}

#[test]
fn forward_press_at_zero_yaw_drives_negative_z() {
    let mut controller = MovementController::new();
    let heads = orientation_with_up(1000);
    let mut input = InputSnapshot::idle();
    input.forward = true;
    let effects = controller.step(&input, 16, &heads, 0, false);
    assert_eq!(effects.force_frame_yaw, 0);
    assert_eq!(effects.force, Vec3Fx { x: 0, y: 0, z: -35000 });

    // Releasing the key clears the axis on the very next step.
    let idle = controller.step(&InputSnapshot::idle(), 16, &heads, 0, false);
    assert_eq!(idle.force, Vec3Fx { x: 0, y: 0, z: 0 });
    assert_eq!(idle.torque_body, Vec3Fx { x: 0, y: 0, z: 0 });
}

#[test]
fn strafe_and_forward_combine_per_axis() {
    let mut controller = MovementController::new();
    let heads = orientation_with_up(1000);
    let mut input = InputSnapshot::idle();
    input.forward = true;
    input.strafe_left = true;
    let effects = controller.step(&input, 16, &heads, -250, false);
    assert_eq!(effects.force, Vec3Fx { x: -35000, y: 0, z: -35000 });
    assert_eq!(effects.force_frame_yaw, -250);
}

#[test]
fn half_second_grounded_release_fires_scaled_impulse() {
    let mut controller = MovementController::new();
    let heads = orientation_with_up(1000);
    let mut held = InputSnapshot::idle();
    held.jump_held = true;
    controller.step(&held, 500, &heads, 0, false);
    assert_eq!(controller.charge.millis, 500);

    let mut release = InputSnapshot::idle();
    release.jump_released = true;
    let effects = controller.step(&release, 16, &heads, 0, true);
    let jump = effects.jump.expect("grounded release must fire");
    // Half of BASE_JUMP_STRENGTH (6.0) upward, twice that ahead,
    // half of BASE_FLIP_STRENGTH (20.0) of flip.
    assert_eq!(jump.linear, Vec3Fx { x: 0, y: 3000, z: 6000 });
    assert_eq!(jump.angular, Vec3Fx { x: -10000, y: 0, z: 0 });
    assert_eq!(effects.charge_millis, 0);
    assert_eq!(controller.charge.millis, 0);
}

#[test]
fn airborne_release_fires_nothing_but_still_clears() {
    let mut controller = MovementController::new();
    let heads = orientation_with_up(1000);
    let mut held = InputSnapshot::idle();
    held.jump_held = true;
    controller.step(&held, 700, &heads, 0, false);

    let mut release = InputSnapshot::idle();
    release.jump_released = true;
    let effects = controller.step(&release, 16, &heads, 0, false);
    assert!(effects.jump.is_none());
    assert_eq!(controller.charge.millis, 0);
}

#[test]
fn charge_saturates_at_full_hold() {
    let mut controller = MovementController::new();
    let heads = orientation_with_up(1000);
    let mut held = InputSnapshot::idle();
    held.jump_held = true;
    controller.step(&held, 800, &heads, 0, false);
    controller.step(&held, 800, &heads, 0, false);
    assert_eq!(controller.charge.millis, 1000);
}

#[test]
fn turn_torque_flips_sign_with_face_at_equal_magnitude() {
    let mut controller = MovementController::new();
    let mut input = InputSnapshot::idle();
    input.turn_left = true;

    let heads = orientation_with_up(500);
    let on_heads = controller.step(&input, 16, &heads, 0, false);
    assert_eq!(on_heads.torque_body, Vec3Fx { x: 0, y: 10000, z: 0 });

    // The body flips to tails between two consecutive steps while the key
    // is still held: the torque negates, its magnitude does not change.
    let tails = orientation_with_up(-500);
    let on_tails = controller.step(&input, 16, &tails, 0, false);
    assert_eq!(on_tails.torque_body, Vec3Fx { x: 0, y: -10000, z: 0 });
    assert_eq!(on_heads.torque_body.y, -on_tails.torque_body.y);
}

#[test]
fn turn_right_mirrors_turn_left() {
    let mut controller = MovementController::new();
    let heads = orientation_with_up(1000);
    let mut input = InputSnapshot::idle();
    input.turn_right = true;
    let effects = controller.step(&input, 16, &heads, 0, false);
    assert_eq!(effects.torque_body, Vec3Fx { x: 0, y: -10000, z: 0 });
}

#[test]
fn reset_teleports_to_spawn() {
    let mut controller = MovementController::new();
    let heads = orientation_with_up(1000);
    let mut input = InputSnapshot::idle();
    input.reset_held = true;
    let effects = controller.step(&input, 16, &heads, 0, false);
    assert_eq!(effects.teleport, Some(Vec3Fx { x: 0, y: 5000, z: 0 }));

    let idle = controller.step(&InputSnapshot::idle(), 16, &heads, 0, false);
    assert_eq!(idle.teleport, None);
}

use coin_core::camera::CameraPose;
use coin_core::controller::InputSnapshot;
use coin_core::orientation::BodyAttitude;
use coin_core::pipeline::BodyObservation;
use coin_core::pipeline::ConfigError;
use coin_core::pipeline::CoreState;
use coin_core::pipeline::StepInputs;
use coin_core::pipeline::resolve_singleton;
use coin_core::pipeline::simulation_step;
use coin_core::vec::Vec3Fx;

fn body_at(x: i64, y: i64, z: i64, up_y: i64) -> BodyObservation {
    BodyObservation {
        attitude: BodyAttitude { forward_x: 0, forward_z: -1000, up_y },
        position: Vec3Fx::new(x, y, z),
    }
}

fn quiet_inputs() -> StepInputs {
    StepInputs {
        pause_pressed: false,
        pointer_dx: 0,
        pointer_dy: 0,
        keys: InputSnapshot::idle(),
        dt_millis: 16,
        hit_below: None,
        hit_above: None,
    }
}

#[test]
fn running_step_emits_effects_and_follows_body() {
    let mut state = CoreState::new();
    let body = body_at(100, 5000, -200, 1000);
    let mut inputs = quiet_inputs();
    inputs.keys.forward = true;
    inputs.pointer_dx = 10;

    let effects = simulation_step(&mut state, Some(&body), &inputs)
        .expect("a running step emits effects");
    assert_eq!(state.rig.orbit.yaw, -50);
    assert_eq!(
        state.rig.pose,
        CameraPose { yaw: -50, pitch: 0, anchor: Vec3Fx::new(100, 5000, -200) }
    );
    assert_eq!(effects.force_frame_yaw, -50);
    assert_eq!(effects.force, Vec3Fx { x: 0, y: 0, z: -35000 });
    assert!(state.orientation.is_primary_face);
}

#[test]
fn pause_toggle_freezes_controller_but_not_camera() {
    let mut state = CoreState::new();
    let body = body_at(0, 5000, 0, 1000);

    let mut inputs = quiet_inputs();
    inputs.pause_pressed = true;
    inputs.pointer_dx = 40;
    inputs.keys.forward = true;
    inputs.keys.jump_held = true;

    let effects = simulation_step(&mut state, Some(&body), &inputs);
    assert!(effects.is_none());
    assert!(state.gate.menu_visible());
    assert!(state.gate.clock_paused);
    // No input was read: the orbit did not move, the charge did not grow.
    assert_eq!(state.rig.orbit.yaw, 0);
    assert_eq!(state.controller.charge.millis, 0);
    // The cosmetic camera pose still follows the body.
    assert_eq!(state.rig.pose.anchor, Vec3Fx::new(0, 5000, 0));
}

#[test]
fn unpausing_resumes_movement() {
    let mut state = CoreState::new();
    let body = body_at(0, 5000, 0, 1000);

    let mut pause = quiet_inputs();
    pause.pause_pressed = true;
    assert!(simulation_step(&mut state, Some(&body), &pause).is_none());

    let mut resume = quiet_inputs();
    resume.pause_pressed = true;
    resume.keys.forward = true;
    let effects = simulation_step(&mut state, Some(&body), &resume)
        .expect("the second toggle resumes");
    assert!(!state.gate.menu_visible());
    assert_eq!(effects.force, Vec3Fx { x: 0, y: 0, z: -35000 });
}

#[test]
fn unresolved_body_skips_the_step() {
    let mut state = CoreState::new();
    let mut inputs = quiet_inputs();
    inputs.pointer_dx = 100;
    inputs.keys.forward = true;

    let before = state;
    let effects = simulation_step(&mut state, None, &inputs);
    assert!(effects.is_none());
    assert_eq!(state, before);
}

#[test]
fn grounded_release_fires_through_the_pipeline() {
    let mut state = CoreState::new();
    let body = body_at(0, 5000, 0, 1000);

    let mut hold = quiet_inputs();
    hold.keys.jump_held = true;
    hold.dt_millis = 500;
    simulation_step(&mut state, Some(&body), &hold).expect("running");

    let mut release = quiet_inputs();
    release.keys.jump_released = true;
    release.hit_below = Some(80);
    let effects = simulation_step(&mut state, Some(&body), &release).expect("running");
    let jump = effects.jump.expect("grounded release fires");
    assert_eq!(jump.linear, Vec3Fx { x: 0, y: 3000, z: 6000 });
    assert_eq!(state.controller.charge.millis, 0);
}

#[test]
fn flipped_body_classifies_tails_through_the_pipeline() {
    let mut state = CoreState::new();
    let body = body_at(0, 5000, 0, -1000);
    let mut inputs = quiet_inputs();
    inputs.keys.turn_left = true;
    let effects = simulation_step(&mut state, Some(&body), &inputs).expect("running");
    assert!(!state.orientation.is_primary_face);
    assert_eq!(effects.torque_body, Vec3Fx { x: 0, y: -10000, z: 0 });
}

#[test]
fn singleton_resolution_accepts_exactly_one() {
    assert_eq!(resolve_singleton(1), Ok(()));
    assert_eq!(resolve_singleton(0), Err(ConfigError::Missing));
    assert_eq!(resolve_singleton(2), Err(ConfigError::Duplicate));
    assert_eq!(resolve_singleton(9), Err(ConfigError::Duplicate));
}

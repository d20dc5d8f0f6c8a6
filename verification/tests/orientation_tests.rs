use coin_core::orientation::BodyAttitude;
use coin_core::orientation::OrientationState;
use coin_core::orientation::classify;
use coin_core::rotation::Heading;

fn upright_facing(x: i64, z: i64, up_y: i64) -> BodyAttitude {
    BodyAttitude { forward_x: x, forward_z: z, up_y }
}

#[test]
fn positive_up_axis_is_primary_face() {
    let prev = OrientationState::default();
    let state = classify(&upright_facing(0, -1000, 1000), &prev);
    assert!(state.is_primary_face);
    assert!(!state.yaw.axis_flipped);
    assert!(!state.look.axis_flipped);
    assert_eq!(state.yaw, state.look);
}

#[test]
fn negative_up_axis_is_secondary_face() {
    let prev = OrientationState::default();
    let state = classify(&upright_facing(0, -1000, -1000), &prev);
    assert!(!state.is_primary_face);
    assert!(!state.yaw.axis_flipped);
    assert!(state.look.axis_flipped);
    assert_ne!(state.yaw, state.look);
}

#[test]
fn zero_up_axis_is_deterministic_primary() {
    let prev = OrientationState::default();
    let state = classify(&upright_facing(700, 300, 0), &prev);
    assert!(state.is_primary_face);
    let again = classify(&upright_facing(700, 300, 0), &prev);
    assert_eq!(state, again);
}

#[test]
fn heading_follows_forward_projection() {
    let prev = OrientationState::default();
    let state = classify(&upright_facing(600, -800, 500), &prev);
    assert_eq!(state.yaw.heading, Heading { x: 600, z: -800 });
    assert_eq!(state.look.heading, Heading { x: 600, z: -800 });
}

#[test]
fn degenerate_heading_retains_previous_angle() {
    let prev = OrientationState::default();
    let turned = classify(&upright_facing(1000, 0, 1000), &prev);
    // The body now stands perfectly vertical: no horizontal projection.
    let vertical = classify(&upright_facing(0, 0, 1000), &turned);
    assert_eq!(vertical.yaw.heading, Heading { x: 1000, z: 0 });
    assert!(vertical.is_primary_face);
}

#[test]
fn degenerate_heading_still_reclassifies_face() {
    let prev = OrientationState::default();
    let vertical_flipped = classify(&upright_facing(0, 0, -400), &prev);
    assert_eq!(vertical_flipped.yaw.heading, Heading { x: 0, z: -1000 });
    assert!(!vertical_flipped.is_primary_face);
    assert!(vertical_flipped.look.axis_flipped);
}

#[test]
fn default_state_is_upright_reference() {
    let state = OrientationState::default();
    assert!(state.is_primary_face);
    assert_eq!(state.yaw.heading, Heading { x: 0, z: -1000 });
    assert!(!state.yaw.axis_flipped);
    assert_eq!(state.yaw, state.look);
}

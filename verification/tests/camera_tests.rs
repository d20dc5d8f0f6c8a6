use coin_core::camera::CameraPose;
use coin_core::camera::CameraRig;
use coin_core::camera::camera_look_offset;
use coin_core::camera::camera_relative;
use coin_core::vec::Vec3Fx;

#[test]
fn pointer_delta_turns_against_pointer() {
    let mut rig = CameraRig::new();
    rig.apply_pointer_delta(10, 20);
    // 5 milliradians per pixel on both axes.
    assert_eq!(rig.orbit.yaw, -50);
    assert_eq!(rig.orbit.pitch, -100);
}

#[test]
fn pitch_clamps_below() {
    let mut rig = CameraRig::new();
    rig.apply_pointer_delta(0, 1_000_000);
    assert_eq!(rig.orbit.pitch, -1100);
}

#[test]
fn pitch_clamps_above() {
    let mut rig = CameraRig::new();
    rig.apply_pointer_delta(0, -1_000_000);
    assert_eq!(rig.orbit.pitch, 400);
}

#[test]
fn pitch_never_leaves_range_over_any_delta_run() {
    let mut rig = CameraRig::new();
    let wild: [i64; 8] = [500, -90_000, 3, 80_000, -1, 0, 77_777, -77_778];
    for dy in wild {
        rig.apply_pointer_delta(0, dy);
        assert!(-1100 <= rig.orbit.pitch && rig.orbit.pitch <= 400);
    }
}

#[test]
fn yaw_accumulates_without_pitch_clamp() {
    let mut rig = CameraRig::new();
    rig.apply_pointer_delta(100, 0);
    rig.apply_pointer_delta(-40, 0);
    assert_eq!(rig.orbit.yaw, -300);
    assert_eq!(rig.orbit.pitch, 0);
}

#[test]
fn pose_follows_resolved_body() {
    let mut rig = CameraRig::new();
    rig.apply_pointer_delta(10, 4);
    let body = Vec3Fx::new(2000, 5000, -1000);
    rig.compute_pose(Some(&body));
    assert_eq!(rig.pose, CameraPose { yaw: -50, pitch: -20, anchor: body });
}

#[test]
fn pose_retained_when_body_unresolved() {
    let mut rig = CameraRig::new();
    let body = Vec3Fx::new(1, 2, 3);
    rig.compute_pose(Some(&body));
    let held = rig.pose;
    rig.apply_pointer_delta(10, 10);
    rig.compute_pose(None);
    assert_eq!(rig.pose, held);
}

#[test]
fn fixed_camera_offsets() {
    assert_eq!(camera_relative(), Vec3Fx { x: 0, y: 1500, z: 5000 });
    assert_eq!(camera_look_offset(), Vec3Fx { x: 0, y: 1500, z: 0 });
}

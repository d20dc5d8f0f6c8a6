//! The explicit per-step pipeline: orientation, then camera and movement.
//!
//! Each simulation step runs in a fixed order: the pause toggle is applied
//! first; then, if the controlled body was resolved, the orientation is
//! reclassified from its pose; the camera pose is recomputed every step,
//! paused or not (it is cosmetic); and only while running are pointer
//! deltas accumulated and the movement controller stepped. When the body
//! cannot be resolved the step is skipped entirely: every piece of state
//! keeps its previous value and no effects are emitted. Physics
//! integration is the external stage that runs after the emitted effects
//! are committed.

use vstd::prelude::*;

use crate::camera::CameraPose;
use crate::camera::CameraRig;
use crate::camera::pitch_after_delta;
use crate::camera::yaw_after_delta;
use crate::controller::InputSnapshot;
use crate::controller::MovementController;
use crate::controller::StepEffects;
use crate::controller::charge_next_spec;
use crate::controller::charge_used_spec;
use crate::controller::force_x_spec;
use crate::controller::force_z_spec;
use crate::controller::torque_y_spec;
use crate::game_const::FLIP_RATE;
use crate::game_const::JUMP_RATE;
use crate::game_const::POINTER_DELTA_LIMIT;
use crate::game_const::SPAWN_HEIGHT;
use crate::ground::hit_within_range;
use crate::ground::is_grounded;
use crate::orientation::BodyAttitude;
use crate::orientation::OrientationState;
use crate::orientation::classify;
use crate::orientation::classify_spec;
use crate::pause::PauseGate;
use crate::pause::PauseState;
use crate::vec::Vec3Fx;

verus! {

/// The whole movement core: one orientation snapshot, one camera rig, one
/// pause gate, one movement controller — exactly one controlled body and
/// one camera, single-writer per resource within a step.
#[derive(Clone, Copy, Debug, PartialEq, Eq, Structural)]
pub struct CoreState {
    pub orientation: OrientationState,
    pub rig: CameraRig,
    pub gate: PauseGate,
    pub controller: MovementController,
}

/// What the engine resolved about the controlled body this step.
#[derive(Clone, Copy, Debug, PartialEq, Eq, Structural)]
pub struct BodyObservation {
    pub attitude: BodyAttitude,
    pub position: Vec3Fx,
}

/// The step's external inputs: the pause key edge, the pointer motion
/// summed over the step, the key snapshot, the elapsed time, and the
/// answers of this step's two ground-probe ray queries.
#[derive(Clone, Copy, Debug, PartialEq, Eq, Structural)]
pub struct StepInputs {
    pub pause_pressed: bool,
    pub pointer_dx: i64,
    pub pointer_dy: i64,
    pub keys: InputSnapshot,
    pub dt_millis: i64,
    pub hit_below: Option<i64>,
    pub hit_above: Option<i64>,
}

/// Why a required singleton entity could not be resolved: gameplay cannot
/// proceed without exactly one controlled body and one camera.
#[derive(Clone, Copy, Debug, PartialEq, Eq, Structural)]
pub enum ConfigError {
    Missing,
    Duplicate,
}

/// Decides whether a query for a required singleton — the one controlled
/// body, the one camera — resolved cleanly, from the number of matches.
/// The caller chooses the policy for an error: skip the step, or treat it
/// as fatal.
pub fn resolve_singleton(matches_found: u64) -> (r: Result<(), ConfigError>)
    ensures
        (r is Ok) == (matches_found == 1),
        r matches Err(e) ==> e == (if matches_found == 0 {
            ConfigError::Missing
        } else {
            ConfigError::Duplicate
        }),
{
    if matches_found == 0 {
        Err(ConfigError::Missing)
    } else if matches_found == 1 {
        Ok(())
    } else {
        Err(ConfigError::Duplicate)
    }
}

impl CoreState {
    pub open spec fn wf(self) -> bool {
        &&& self.orientation.wf()
        &&& self.rig.wf()
        &&& self.gate.wf()
        &&& self.controller.wf()
    }

    /// The core before the first step: upright orientation, orbit dead
    /// ahead, running, empty charge.
    pub fn new() -> (r: CoreState)
        ensures
            r.wf(),
            r.gate.state is Running,
            r.controller.charge.millis == 0,
            r.rig.orbit == (crate::camera::CameraOrbit { yaw: 0i64, pitch: 0i64 }),
            r.orientation.is_primary_face,
    {
        CoreState {
            orientation: OrientationState::default(),
            rig: CameraRig::new(),
            gate: PauseGate::new(),
            controller: MovementController::new(),
        }
    }
}

/// Runs one simulation step over the whole core.
///
/// Returns the controller's channel values for this step, or `None` when
/// nothing may be written: while paused the controller reads no input and
/// contributes no forces, and with an unresolved body the step is skipped
/// wholesale. The camera pose is the one write that happens every step
/// with a resolved body, paused or not.
pub fn simulation_step(
    state: &mut CoreState,
    body: Option<&BodyObservation>,
    inputs: &StepInputs,
) -> (effects: Option<StepEffects>)
    requires
        old(state).wf(),
        inputs.dt_millis >= 0,
        -POINTER_DELTA_LIMIT <= inputs.pointer_dx <= POINTER_DELTA_LIMIT,
        -POINTER_DELTA_LIMIT <= inputs.pointer_dy <= POINTER_DELTA_LIMIT,
    ensures
        final(state).wf(),
        // The pause toggle is applied first, and by nothing else.
        inputs.pause_pressed ==> (final(state).gate.is_paused()
            <==> !old(state).gate.is_paused()),
        !inputs.pause_pressed ==> final(state).gate == old(state).gate,
        // An unresolved body skips the step wholesale.
        body is None ==> {
            &&& effects is None
            &&& final(state).orientation == old(state).orientation
            &&& final(state).rig == old(state).rig
            &&& final(state).controller == old(state).controller
        },
        // The orientation is reclassified from the resolved pose every
        // step, paused or not.
        body matches Some(b) ==> final(state).orientation == classify_spec(
            b.attitude,
            old(state).orientation,
        ),
        // While paused: no input is read — the orbit and the charge keep
        // their values, no effects are emitted — but the camera pose is
        // still recomputed at the body.
        body matches Some(b) ==> final(state).gate.is_paused() ==> {
            &&& effects is None
            &&& final(state).rig.orbit == old(state).rig.orbit
            &&& final(state).rig.pose == (CameraPose {
                yaw: old(state).rig.orbit.yaw,
                pitch: old(state).rig.orbit.pitch,
                anchor: b.position,
            })
            &&& final(state).controller == old(state).controller
        },
        // While running: pointer motion turns the orbit, the camera pose
        // follows the body under the new orbit, and the controller's
        // channel values are emitted.
        body matches Some(b) ==> !final(state).gate.is_paused() ==> {
            &&& final(state).rig.orbit.yaw == yaw_after_delta(
                old(state).rig.orbit.yaw as int,
                inputs.pointer_dx as int,
            )
            &&& final(state).rig.orbit.pitch == pitch_after_delta(
                old(state).rig.orbit.pitch as int,
                inputs.pointer_dy as int,
            )
            &&& final(state).rig.pose == (CameraPose {
                yaw: final(state).rig.orbit.yaw,
                pitch: final(state).rig.orbit.pitch,
                anchor: b.position,
            })
            &&& final(state).controller.charge.millis == charge_next_spec(
                old(state).controller.charge.millis as int,
                inputs.keys,
                inputs.dt_millis as int,
            )
            &&& effects matches Some(e) && {
                &&& e.force_frame_yaw == final(state).rig.orbit.yaw
                &&& e.force.x == force_x_spec(inputs.keys)
                &&& e.force.y == 0
                &&& e.force.z == force_z_spec(inputs.keys)
                &&& e.torque_body.x == 0
                &&& e.torque_body.y == torque_y_spec(
                    inputs.keys,
                    final(state).orientation.is_primary_face,
                )
                &&& e.torque_body.z == 0
                &&& (e.jump is Some) == (inputs.keys.jump_released && (hit_within_range(
                    inputs.hit_below,
                ) || hit_within_range(inputs.hit_above)))
                &&& e.jump matches Some(j) ==> {
                    let spent = charge_used_spec(
                        old(state).controller.charge.millis as int,
                        inputs.keys,
                        inputs.dt_millis as int,
                    );
                    &&& j.linear.x == 0
                    &&& j.linear.y == spent * JUMP_RATE
                    &&& j.linear.z == 2 * (spent * JUMP_RATE)
                    &&& j.angular.x == -(spent * FLIP_RATE)
                    &&& j.angular.y == 0
                    &&& j.angular.z == 0
                }
                &&& (e.teleport is Some) == inputs.keys.reset_held
                &&& e.teleport matches Some(p) ==> p == (Vec3Fx {
                    x: 0i64,
                    y: SPAWN_HEIGHT,
                    z: 0i64,
                })
                &&& e.charge_millis == final(state).controller.charge.millis
            }
        },
{
    if inputs.pause_pressed {
        state.gate.toggle();
    }
    match body {
        None => None,
        Some(b) => {
            state.orientation = classify(&b.attitude, &state.orientation);
            let paused: bool = match state.gate.state {
                PauseState::Paused => true,
                PauseState::Running => false,
            };
            if paused {
                state.rig.compute_pose(Some(&b.position));
                None
            } else {
                state.rig.apply_pointer_delta(inputs.pointer_dx, inputs.pointer_dy);
                state.rig.compute_pose(Some(&b.position));
                let grounded: bool = is_grounded(&inputs.hit_below, &inputs.hit_above);
                let camera_yaw: i64 = state.rig.orbit.yaw;
                let effects = state.controller.step(
                    &inputs.keys,
                    inputs.dt_millis,
                    &state.orientation,
                    camera_yaw,
                    grounded,
                );
                Some(effects)
            }
        },
    }
}

} // verus!

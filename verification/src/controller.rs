//! The movement controller: maps one step of input through the camera
//! basis into the body's physics channels.
//!
//! Every running step the controller emits a complete, fresh set of
//! channel values — force, torque, optional jump impulse, optional pose
//! reset — so that no stale contribution from an earlier step can ever
//! persist. Directional force and jump impulse are given in the camera's
//! yaw frame (world value = rotation about world up by `force_frame_yaw`,
//! applied to the stored vector); turning torque is given in the body's
//! own frame, its sign following the face classification so that turn
//! input keeps its handedness when the body is flipped.

use vstd::prelude::*;

use crate::fx::bool_posneg;
use crate::fx::bool_posneg_spec;
use crate::game_const::FLIP_RATE;
use crate::game_const::JUMP_RATE;
use crate::game_const::ROT_SPEED;
use crate::game_const::SPAWN_HEIGHT;
use crate::game_const::SPEED;
use crate::jump::JumpCharge;
use crate::jump::charge_after_tick;
use crate::orientation::OrientationState;
use crate::vec::Vec3Fx;

verus! {

/// The key states the controller reads for one step.
#[derive(Clone, Copy, Debug, PartialEq, Eq, Structural)]
pub struct InputSnapshot {
    pub forward: bool,
    pub back: bool,
    pub strafe_left: bool,
    pub strafe_right: bool,
    pub turn_left: bool,
    pub turn_right: bool,
    /// The jump key is down this step.
    pub jump_held: bool,
    /// The jump key was released this step.
    pub jump_released: bool,
    pub reset_held: bool,
}

impl InputSnapshot {
    /// No key active: the step contributes nothing but channel clearing.
    pub fn idle() -> (r: InputSnapshot)
        ensures
            r == (InputSnapshot {
                forward: false,
                back: false,
                strafe_left: false,
                strafe_right: false,
                turn_left: false,
                turn_right: false,
                jump_held: false,
                jump_released: false,
                reset_held: false,
            }),
    {
        InputSnapshot {
            forward: false,
            back: false,
            strafe_left: false,
            strafe_right: false,
            turn_left: false,
            turn_right: false,
            jump_held: false,
            jump_released: false,
            reset_held: false,
        }
    }
}

/// The one-shot jump emitted on a grounded release, in the camera's yaw
/// frame: a linear impulse up and ahead, and a torque impulse that flips
/// the body over its lateral axis.
#[derive(Clone, Copy, Debug, PartialEq, Eq, Structural)]
pub struct JumpImpulse {
    pub linear: Vec3Fx,
    pub angular: Vec3Fx,
}

/// Everything the controller writes for one running step. Each step
/// carries a complete set of channel values: axes without input are
/// explicitly zero, so the previous step's contribution is always cleared.
#[derive(Clone, Copy, Debug, PartialEq, Eq, Structural)]
pub struct StepEffects {
    /// Yaw angle (milliradians) of the camera frame in which `force` and
    /// the jump impulse are expressed.
    pub force_frame_yaw: i64,
    /// Directional movement force, camera-yaw frame.
    pub force: Vec3Fx,
    /// Turning torque, body frame.
    pub torque_body: Vec3Fx,
    /// The jump, fired only by a grounded release.
    pub jump: Option<JumpImpulse>,
    /// A reset teleport: overwrite the body position with this point and
    /// the body rotation with the identity, bypassing integration.
    pub teleport: Option<Vec3Fx>,
    /// The jump charge after this step, published for the UI charge bar.
    pub charge_millis: i64,
}

/// Sideways force component: strafe keys pick the camera-frame x axis;
/// when both are down the later-checked right key wins the axis.
pub open spec fn force_x_spec(input: InputSnapshot) -> int {
    if input.strafe_right {
        SPEED as int
    } else if input.strafe_left {
        -SPEED as int
    } else {
        0
    }
}

/// Ahead force component: forward drives toward negative camera-frame z;
/// when both keys are down the later-checked back key wins the axis.
pub open spec fn force_z_spec(input: InputSnapshot) -> int {
    if input.back {
        SPEED as int
    } else if input.forward {
        -SPEED as int
    } else {
        0
    }
}

/// Turning torque about the body's up axis. The sign flips with the face
/// classification so that turn input keeps its handedness on either face;
/// when both turn keys are down the later-checked right key wins.
pub open spec fn torque_y_spec(input: InputSnapshot, primary_face: bool) -> int {
    if input.turn_right {
        -(bool_posneg_spec(primary_face) * ROT_SPEED)
    } else if input.turn_left {
        bool_posneg_spec(primary_face) * ROT_SPEED
    } else {
        0
    }
}

/// The charge a release this step would spend: grown by `dt` first when
/// the key is held.
pub open spec fn charge_used_spec(charge: int, input: InputSnapshot, dt: int) -> int {
    if input.jump_held {
        charge_after_tick(charge, dt)
    } else {
        charge
    }
}

/// The charge carried into the next step: a release always clears it,
/// grounded or not.
pub open spec fn charge_next_spec(charge: int, input: InputSnapshot, dt: int) -> int {
    if input.jump_released {
        0
    } else {
        charge_used_spec(charge, input, dt)
    }
}

/// Flipping the face classification flips the sign of the turning torque
/// and nothing else: for any turn input the torque on the secondary face
/// is exactly the negation of the torque on the primary face, so a body
/// that flips mid-turn sees the sign change with no discontinuity in
/// magnitude.
pub proof fn lemma_turn_torque_flips_with_face(input: InputSnapshot)
    ensures
        torque_y_spec(input, false) == -torque_y_spec(input, true),
{
}

/// The per-step orchestrator's persistent state: the jump charge timer.
#[derive(Clone, Copy, Debug, PartialEq, Eq, Structural)]
pub struct MovementController {
    pub charge: JumpCharge,
}

impl MovementController {
    pub open spec fn wf(self) -> bool {
        self.charge.wf()
    }

    /// A controller with an empty charge.
    pub fn new() -> (r: MovementController)
        ensures
            r.wf(),
            r.charge.millis == 0,
    {
        MovementController { charge: JumpCharge::new() }
    }

    /// One running step: reads the input snapshot, the orientation
    /// derived this step, the camera orbit yaw and the grounded answer,
    /// advances the jump charge, and emits the complete set of channel
    /// values. The grounded answer must come from this step's probe, so a
    /// body that flips mid-charge jumps using its new orientation.
    pub fn step(
        &mut self,
        input: &InputSnapshot,
        dt_millis: i64,
        orientation: &OrientationState,
        camera_yaw: i64,
        grounded: bool,
    ) -> (effects: StepEffects)
        requires
            old(self).wf(),
            orientation.wf(),
            dt_millis >= 0,
        ensures
            final(self).wf(),
            final(self).charge.millis == charge_next_spec(
                old(self).charge.millis as int,
                *input,
                dt_millis as int,
            ),
            effects.charge_millis == final(self).charge.millis,
            effects.force_frame_yaw == camera_yaw,
            effects.force.x == force_x_spec(*input),
            effects.force.y == 0,
            effects.force.z == force_z_spec(*input),
            effects.torque_body.x == 0,
            effects.torque_body.y == torque_y_spec(*input, orientation.is_primary_face),
            effects.torque_body.z == 0,
            (effects.jump is Some) == (input.jump_released && grounded),
            effects.jump matches Some(j) ==> {
                let spent = charge_used_spec(old(self).charge.millis as int, *input, dt_millis as int);
                &&& j.linear.x == 0
                &&& j.linear.y == spent * JUMP_RATE
                &&& j.linear.z == 2 * (spent * JUMP_RATE)
                &&& j.angular.x == -(spent * FLIP_RATE)
                &&& j.angular.y == 0
                &&& j.angular.z == 0
            },
            (effects.teleport is Some) == input.reset_held,
            effects.teleport matches Some(p) ==> p == (Vec3Fx {
                x: 0i64,
                y: SPAWN_HEIGHT,
                z: 0i64,
            }),
    {
        if input.jump_held {
            self.charge.tick(dt_millis);
        }

        let jump: Option<JumpImpulse> = if input.jump_released {
            let spent: i64 = self.charge.release();
            if grounded {
                Some(JumpImpulse {
                    linear: Vec3Fx { x: 0, y: spent * JUMP_RATE, z: 2 * (spent * JUMP_RATE) },
                    angular: Vec3Fx { x: -(spent * FLIP_RATE), y: 0, z: 0 },
                })
            } else {
                None
            }
        } else {
            None
        };

        let sign: i64 = bool_posneg(orientation.is_primary_face);
        let torque_y: i64 = if input.turn_right {
            -(sign * ROT_SPEED)
        } else if input.turn_left {
            sign * ROT_SPEED
        } else {
            0
        };

        let force_x: i64 = if input.strafe_right {
            SPEED
        } else if input.strafe_left {
            -SPEED
        } else {
            0
        };
        let force_z: i64 = if input.back {
            SPEED
        } else if input.forward {
            -SPEED
        } else {
            0
        };

        let teleport: Option<Vec3Fx> = if input.reset_held {
            Some(Vec3Fx { x: 0, y: SPAWN_HEIGHT, z: 0 })
        } else {
            None
        };

        StepEffects {
            force_frame_yaw: camera_yaw,
            force: Vec3Fx { x: force_x, y: 0, z: force_z },
            torque_body: Vec3Fx { x: 0, y: torque_y, z: 0 },
            jump,
            teleport,
            charge_millis: self.charge.millis,
        }
    }
}

} // verus!

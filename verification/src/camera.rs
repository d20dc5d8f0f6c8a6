//! Camera orbit state and per-step camera transform parameters.
//!
//! The rig owns an orbit offset — yaw and pitch angles accumulated from
//! pointer motion, the pitch clamped to a fixed range — and publishes, once
//! per step, the parameters of the camera's world transform: the body
//! anchor plus the orbit under which the engine places the camera at
//! `anchor + R_yaw * R_pitch * CAMERA_RELATIVE`, looking at
//! `anchor + CAMERA_LOOK`, with world up as the up reference.

use vstd::prelude::*;

use crate::fx::clamp;
use crate::fx::clamp_spec;
use crate::game_const::CAMERA_LOOK_Y;
use crate::game_const::CAMERA_RELATIVE_Y;
use crate::game_const::CAMERA_RELATIVE_Z;
use crate::game_const::PITCH_MAX;
use crate::game_const::PITCH_MIN;
use crate::game_const::POINTER_DELTA_LIMIT;
use crate::game_const::SENS_X;
use crate::game_const::SENS_Y;
use crate::game_const::YAW_LIMIT;
use crate::vec::Vec3Fx;

verus! {

/// The orbit offset accumulated from pointer deltas: yaw and pitch in
/// milliradians. Persists across steps; mutated only by pointer motion.
#[derive(Clone, Copy, Debug, PartialEq, Eq, Structural)]
pub struct CameraOrbit {
    pub yaw: i64,
    pub pitch: i64,
}

/// Yaw applied to one pointer event: the orbit turns against the pointer,
/// saturating at the (enormous) accumulation bound.
pub open spec fn yaw_after_delta(yaw: int, dx: int) -> int {
    clamp_spec(yaw - dx * SENS_X, -YAW_LIMIT as int, YAW_LIMIT as int)
}

/// Pitch applied to one pointer event: the orbit tilts against the pointer
/// and is clamped to `[PITCH_MIN, PITCH_MAX]`.
pub open spec fn pitch_after_delta(pitch: int, dy: int) -> int {
    clamp_spec(pitch - dy * SENS_Y, PITCH_MIN as int, PITCH_MAX as int)
}

/// Pitch after a whole sequence of pointer events.
pub open spec fn pitch_after_deltas(pitch: int, dys: Seq<int>) -> int
    decreases dys.len(),
{
    if dys.len() == 0 {
        pitch
    } else {
        pitch_after_delta(pitch_after_deltas(pitch, dys.drop_last()), dys.last())
    }
}

/// The pitch orbit never leaves `[PITCH_MIN, PITCH_MAX]`: after any
/// sequence of at least one pointer delta the pitch is in range, whatever
/// the deltas, and a pitch already in range stays there.
pub proof fn lemma_pitch_stays_clamped(pitch: int, dys: Seq<int>)
    requires
        dys.len() > 0 || PITCH_MIN <= pitch <= PITCH_MAX,
    ensures
        PITCH_MIN <= pitch_after_deltas(pitch, dys) <= PITCH_MAX,
    decreases dys.len(),
{
    if dys.len() > 0 {
        if dys.len() > 1 || PITCH_MIN <= pitch <= PITCH_MAX {
            lemma_pitch_stays_clamped(pitch, dys.drop_last());
        }
    }
}

impl CameraOrbit {
    /// The accumulated angles stay on their saturation and clamp ranges.
    pub open spec fn wf(self) -> bool {
        &&& -YAW_LIMIT <= self.yaw <= YAW_LIMIT
        &&& PITCH_MIN <= self.pitch <= PITCH_MAX
    }
}

impl Default for CameraOrbit {
    /// The orbit starts dead ahead: no yaw, no pitch.
    fn default() -> (r: CameraOrbit)
        ensures
            r == (CameraOrbit { yaw: 0i64, pitch: 0i64 }),
            r.wf(),
    {
        CameraOrbit { yaw: 0, pitch: 0 }
    }
}

/// The parameters of the camera's world transform for one step. The world
/// transform itself is trigonometric and is realised by the engine shell:
/// position `anchor + R_yaw * R_pitch * CAMERA_RELATIVE`, orientation
/// looking at `anchor + CAMERA_LOOK` with world up as up reference.
#[derive(Clone, Copy, Debug, PartialEq, Eq, Structural)]
pub struct CameraPose {
    /// Orbit yaw about the world vertical axis, milliradians.
    pub yaw: i64,
    /// Orbit pitch about the world lateral axis, milliradians.
    pub pitch: i64,
    /// The controlled body's position the camera is anchored to.
    pub anchor: Vec3Fx,
}

/// The camera rig: the orbit it owns and the transform parameters it last
/// published. Exactly one pose is published per step; when the controlled
/// body cannot be resolved the rig performs no update and the last pose
/// stands.
#[derive(Clone, Copy, Debug, PartialEq, Eq, Structural)]
pub struct CameraRig {
    pub orbit: CameraOrbit,
    pub pose: CameraPose,
}

impl CameraRig {
    pub open spec fn wf(self) -> bool {
        self.orbit.wf()
    }

    /// A rig at rest: orbit dead ahead, camera anchored at the origin.
    pub fn new() -> (r: CameraRig)
        ensures
            r.wf(),
            r.orbit == (CameraOrbit { yaw: 0i64, pitch: 0i64 }),
            r.pose == (CameraPose { yaw: 0i64, pitch: 0i64, anchor: Vec3Fx { x: 0i64, y: 0i64, z: 0i64 } }),
    {
        CameraRig {
            orbit: CameraOrbit { yaw: 0, pitch: 0 },
            pose: CameraPose { yaw: 0, pitch: 0, anchor: Vec3Fx { x: 0, y: 0, z: 0 } },
        }
    }

    /// Accumulates one pointer-motion event into the orbit: both angles
    /// move against the pointer, scaled by the per-axis sensitivity; the
    /// pitch is clamped to `[PITCH_MIN, PITCH_MAX]`. The delta bound is a
    /// machine limit on a single event, far beyond any real pointer.
    pub fn apply_pointer_delta(&mut self, dx: i64, dy: i64)
        requires
            old(self).wf(),
            -POINTER_DELTA_LIMIT <= dx <= POINTER_DELTA_LIMIT,
            -POINTER_DELTA_LIMIT <= dy <= POINTER_DELTA_LIMIT,
        ensures
            final(self).wf(),
            final(self).orbit.yaw == yaw_after_delta(old(self).orbit.yaw as int, dx as int),
            final(self).orbit.pitch == pitch_after_delta(old(self).orbit.pitch as int, dy as int),
            final(self).pose == old(self).pose,
    {
        let yaw = clamp(self.orbit.yaw - dx * SENS_X, -YAW_LIMIT, YAW_LIMIT);
        let pitch = clamp(self.orbit.pitch - dy * SENS_Y, PITCH_MIN, PITCH_MAX);
        self.orbit = CameraOrbit { yaw, pitch };
    }

    /// Publishes the camera transform parameters for this step. With a
    /// resolved body position the pose is anchored there under the current
    /// orbit; with none the rig retains its last pose.
    pub fn compute_pose(&mut self, body_position: Option<&Vec3Fx>)
        requires
            old(self).wf(),
        ensures
            final(self).wf(),
            final(self).orbit == old(self).orbit,
            body_position matches Some(p) ==> final(self).pose == (CameraPose {
                yaw: old(self).orbit.yaw,
                pitch: old(self).orbit.pitch,
                anchor: *p,
            }),
            body_position is None ==> final(self).pose == old(self).pose,
    {
        match body_position {
            Some(p) => {
                self.pose = CameraPose { yaw: self.orbit.yaw, pitch: self.orbit.pitch, anchor: *p };
            },
            None => {},
        }
    }
}

/// The camera's fixed local offset from the body, in milli-units
/// (`CAMERA_RELATIVE`): raised and pulled back.
pub fn camera_relative() -> (v: Vec3Fx)
    ensures
        v == (Vec3Fx { x: 0i64, y: CAMERA_RELATIVE_Y, z: CAMERA_RELATIVE_Z }),
{
    Vec3Fx { x: 0, y: CAMERA_RELATIVE_Y, z: CAMERA_RELATIVE_Z }
}

/// The fixed offset above the body that the camera looks at, in
/// milli-units (`CAMERA_LOOK`).
pub fn camera_look_offset() -> (v: Vec3Fx)
    ensures
        v == (Vec3Fx { x: 0i64, y: CAMERA_LOOK_Y, z: 0i64 }),
{
    Vec3Fx { x: 0, y: CAMERA_LOOK_Y, z: 0 }
}

} // verus!

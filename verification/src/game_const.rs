//! Tuning constants of the movement core.
//!
//! Scalars are fixed-point: `SCALE` fractional steps per world unit (or per
//! radian, or per second). A value of `35_000` therefore reads as `35.0`.

use vstd::prelude::*;

verus! {

/// Fixed-point denominator: fractional steps per unit, radian and second.
pub const SCALE: i64 = 1000;

/// Magnitude of the directional movement force, in milli-units.
pub const SPEED: i64 = 35_000;

/// Magnitude of the turning torque, in milli-units.
pub const ROT_SPEED: i64 = 10_000;

/// Jump impulse per second of charge, in milli-units.
pub const BASE_JUMP_STRENGTH: i64 = 6_000;

/// Flip torque impulse per second of charge, in milli-units.
pub const BASE_FLIP_STRENGTH: i64 = 20_000;

/// Longest jump charge that is honoured, in milliseconds (one second).
pub const MAX_JUMP_TIME_MILLIS: i64 = 1000;

/// Jump impulse contributed by one millisecond of charge
/// (`BASE_JUMP_STRENGTH / SCALE`).
pub const JUMP_RATE: i64 = 6;

/// Flip torque impulse contributed by one millisecond of charge
/// (`BASE_FLIP_STRENGTH / SCALE`).
pub const FLIP_RATE: i64 = 20;

/// Pointer sensitivity of the camera orbit, horizontal axis:
/// milliradians of yaw per pixel of pointer motion.
pub const SENS_X: i64 = 5;

/// Pointer sensitivity of the camera orbit, vertical axis:
/// milliradians of pitch per pixel of pointer motion.
pub const SENS_Y: i64 = 5;

/// Lower bound of the camera pitch orbit, in milliradians.
pub const PITCH_MIN: i64 = -1100;

/// Upper bound of the camera pitch orbit, in milliradians.
pub const PITCH_MAX: i64 = 400;

/// Saturation bound on the accumulated camera yaw, in milliradians.
/// Far beyond any yaw a player can reach; it only keeps the accumulation
/// total on a machine integer.
pub const YAW_LIMIT: i64 = 1_000_000_000_000;

/// Largest pointer delta accepted in one event, in pixels (a machine limit:
/// it keeps the sensitivity product on a machine integer).
pub const POINTER_DELTA_LIMIT: i64 = 1_000_000_000;

/// Largest magnitude accepted for a body coordinate handed to the core, in
/// milli-units (a machine limit: it keeps probe-ray arithmetic on a machine
/// integer).
pub const COORD_LIMIT: i64 = 1_000_000_000_000;

/// Height of the spawn point above the origin, in milli-units.
pub const SPAWN_HEIGHT: i64 = 5_000;

/// Vertical component of the camera's resting offset from the body,
/// in milli-units.
pub const CAMERA_RELATIVE_Y: i64 = 1_500;

/// Backward component of the camera's resting offset from the body,
/// in milli-units.
pub const CAMERA_RELATIVE_Z: i64 = 5_000;

/// Height above the body that the camera looks at, in milli-units.
pub const CAMERA_LOOK_Y: i64 = 1_500;

/// Distance of each ground-probe ray origin from the body centre, along the
/// orientation basis's up axis, in milli-units.
pub const PROBE_OFFSET: i64 = 100;

/// Farthest hit distance that still counts as grounded, in milli-units.
pub const PROBE_DISTANCE: i64 = 100;

} // verus!

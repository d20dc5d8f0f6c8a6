//! Movement-and-orientation core for a physics platformer whose protagonist
//! is a flat, coin-like rigid body that can rest on either face ("heads" or
//! "tails") and must be controllable identically in both orientations.
//!
//! The library holds the per-step decision logic: classifying which face is
//! up, deriving a yaw/look basis from the body's heading, accumulating a
//! camera orbit from pointer input, charging and releasing jumps, gating on a
//! pause toggle, and mapping key input through the camera basis into force,
//! torque and impulse vectors for the physics body.
//!
//! All quantities are fixed-point integers: lengths, forces and impulses in
//! thousandths of a world unit, angles in milliradians, time in milliseconds.
//! Rotations about the world vertical axis are kept symbolically — as a
//! heading vector or an orbit angle — so every step decision is exact; the
//! engine-facing shell realises them into its own floating-point transforms.

pub mod camera;
pub mod controller;
pub mod fx;
pub mod game_const;
pub mod ground;
pub mod jump;
pub mod orientation;
pub mod pause;
pub mod pipeline;
pub mod rotation;
pub mod vec;

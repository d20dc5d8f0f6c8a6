//! Fixed-point scalar helpers shared by the movement core.

use vstd::prelude::*;

verus! {

/// Mathematical clamp of `v` to the closed interval `[lo, hi]`.
pub open spec fn clamp_spec(v: int, lo: int, hi: int) -> int {
    if v < lo {
        lo
    } else if v > hi {
        hi
    } else {
        v
    }
}

/// Clamps `v` to `[lo, hi]`.
pub fn clamp(v: i64, lo: i64, hi: i64) -> (r: i64)
    requires
        lo <= hi,
    ensures
        r == clamp_spec(v as int, lo as int, hi as int),
        lo <= r <= hi,
{
    if v < lo {
        lo
    } else if v > hi {
        hi
    } else {
        v
    }
}

/// Sign multiplier of a face flag: `+1` for the primary face ("heads"),
/// `-1` otherwise. Turning torque is scaled by it so that turn input keeps
/// its handedness when the body is flipped.
pub open spec fn bool_posneg_spec(b: bool) -> int {
    if b {
        1
    } else {
        -1
    }
}

/// Sign multiplier of a face flag: `+1` for "heads", `-1` for "tails".
pub fn bool_posneg(b: bool) -> (r: i64)
    ensures
        r == bool_posneg_spec(b),
{
    if b {
        1
    } else {
        -1
    }
}

} // verus!

//! Face classification and yaw/look basis derivation.
//!
//! Each simulation step the classifier reads the body's attitude — the
//! horizontal projection of its local forward axis and the world-vertical
//! component of its local up axis — and derives a fresh
//! [`OrientationState`]: a yaw rotation aligning the reference heading with
//! the body's heading, a look basis whose rotation axis flips sign when the
//! body lies upside down, and the `is_primary_face` ("heads") flag that
//! says whether the two coincide.

use vstd::prelude::*;

use crate::rotation::Heading;
use crate::rotation::YawRotation;
use crate::rotation::apply_h_x;
use crate::rotation::apply_h_z;
use crate::rotation::lemma_flipped_yaw_mirrors_reference;
use crate::rotation::lemma_yaw_aligns_reference;

verus! {

/// What the classifier reads from the body's transform, in milli-units:
/// the horizontal projection `(forward_x, forward_z)` of the body-local
/// forward axis, and the world-vertical component `up_y` of the body-local
/// up axis.
#[derive(Clone, Copy, Debug, PartialEq, Eq, Structural)]
pub struct BodyAttitude {
    pub forward_x: i64,
    pub forward_z: i64,
    pub up_y: i64,
}

impl BodyAttitude {
    /// The heading angle is undefined when the forward axis has no
    /// horizontal projection (the body stands perfectly vertical).
    pub open spec fn is_degenerate(self) -> bool {
        self.forward_x == 0 && self.forward_z == 0
    }
}

/// The orientation derived for one step: a pure derived value, recomputed
/// from the body pose every step and never mutated.
#[derive(Clone, Copy, Debug, PartialEq, Eq, Structural)]
pub struct OrientationState {
    /// Rotation about `+Y` aligning the reference heading with the body's.
    pub yaw: YawRotation,
    /// The same rotation, about an axis whose sign follows the body's up
    /// axis: control directions stay consistent when the body is flipped.
    pub look: YawRotation,
    /// True when the primary face ("heads") points up, i.e. when `yaw`
    /// and `look` coincide.
    pub is_primary_face: bool,
}

impl OrientationState {
    /// Both rotations share one well-formed heading; `yaw` is always about
    /// the upright axis, and `look` is flipped exactly on the secondary
    /// face.
    pub open spec fn wf(self) -> bool {
        &&& self.yaw.wf()
        &&& !self.yaw.axis_flipped
        &&& self.look.heading == self.yaw.heading
        &&& self.look.axis_flipped == !self.is_primary_face
    }
}

impl Default for OrientationState {
    /// Before the first step the body is taken as upright, facing the
    /// reference heading.
    fn default() -> (r: OrientationState)
        ensures
            r.wf(),
            r.yaw == YawRotation::identity_spec(),
            r.is_primary_face,
    {
        let identity = YawRotation::identity();
        OrientationState { yaw: identity, look: identity, is_primary_face: true }
    }
}

/// The orientation [`classify`] derives from an attitude: the body's
/// horizontal heading (or the previous step's when the projection is the
/// zero vector), an upright yaw rotation, a look basis flipped exactly
/// when the up axis points below the horizon, and the face flag.
pub open spec fn classify_spec(attitude: BodyAttitude, previous: OrientationState)
    -> OrientationState {
    let heading = if attitude.is_degenerate() {
        previous.yaw.heading
    } else {
        Heading { x: attitude.forward_x, z: attitude.forward_z }
    };
    let heads = attitude.up_y >= 0;
    OrientationState {
        yaw: YawRotation { axis_flipped: false, heading },
        look: YawRotation { axis_flipped: !heads, heading },
        is_primary_face: heads,
    }
}

/// Both classifier outputs are pure yaw in action, not only by
/// representation: on a body with a horizontal heading, the derived yaw
/// basis turns the reference heading `(0, -1)` exactly onto the body's
/// forward projection, while the look basis turns it onto that projection
/// mirrored in x precisely when the body is upside down — and neither
/// moves a vector without horizontal part at all. (Images are stated at
/// the heading-length scale of [`apply_h_x`] / [`apply_h_z`]; the
/// reference heading is unit, so its image needs no scaling.)
pub proof fn lemma_classifier_bases_are_pure_yaw(
    attitude: BodyAttitude,
    previous: OrientationState,
)
    requires
        previous.wf(),
        !attitude.is_degenerate(),
    ensures
        apply_h_x(classify_spec(attitude, previous).yaw, 0, -1) == attitude.forward_x,
        apply_h_z(classify_spec(attitude, previous).yaw, 0, -1) == attitude.forward_z,
        apply_h_x(classify_spec(attitude, previous).look, 0, -1) == (if attitude.up_y >= 0 {
            attitude.forward_x as int
        } else {
            -attitude.forward_x as int
        }),
        apply_h_z(classify_spec(attitude, previous).look, 0, -1) == attitude.forward_z,
        apply_h_x(classify_spec(attitude, previous).yaw, 0, 0) == 0,
        apply_h_z(classify_spec(attitude, previous).yaw, 0, 0) == 0,
        apply_h_x(classify_spec(attitude, previous).look, 0, 0) == 0,
        apply_h_z(classify_spec(attitude, previous).look, 0, 0) == 0,
{
    let derived = classify_spec(attitude, previous);
    lemma_yaw_aligns_reference(derived.yaw);
    if attitude.up_y < 0 {
        lemma_flipped_yaw_mirrors_reference(derived.look);
    } else {
        lemma_yaw_aligns_reference(derived.look);
    }
}

/// Classifies the body's current attitude.
///
/// The yaw rotation's heading is the body's horizontal heading; when that
/// projection is the zero vector the angle is undefined and the previous
/// step's heading is retained rather than producing a bogus basis. The
/// primary face is up exactly when `up_y` is non-negative — at exactly
/// zero the classifier deterministically reports the primary face, the
/// same answer an upright body gives.
pub fn classify(attitude: &BodyAttitude, previous: &OrientationState) -> (r: OrientationState)
    requires
        previous.wf(),
    ensures
        r == classify_spec(*attitude, *previous),
        r.wf(),
        r.yaw.heading == (if attitude.is_degenerate() {
            previous.yaw.heading
        } else {
            Heading { x: attitude.forward_x, z: attitude.forward_z }
        }),
        r.is_primary_face == (attitude.up_y >= 0),
        r.look.axis_flipped == (attitude.up_y < 0),
        (r.yaw == r.look) == r.is_primary_face,
{
    let heading = if attitude.forward_x == 0 && attitude.forward_z == 0 {
        previous.yaw.heading
    } else {
        Heading { x: attitude.forward_x, z: attitude.forward_z }
    };
    let heads = attitude.up_y >= 0;
    OrientationState {
        yaw: YawRotation { axis_flipped: false, heading },
        look: YawRotation { axis_flipped: !heads, heading },
        is_primary_face: heads,
    }
}

} // verus!

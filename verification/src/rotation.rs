//! Rotations about the world vertical axis, kept symbolically.
//!
//! A [`YawRotation`] is the rotation about the world vertical axis — `+Y`,
//! or `-Y` when `axis_flipped` — by the negative of the signed angle from
//! the reference heading `(0, -1)` to `heading` in the horizontal plane.
//! Holding the heading vector instead of the angle keeps the representation
//! exact: no trigonometry is ever evaluated in the core, and the fact that
//! such a rotation is pure yaw — it moves nothing out of the horizontal
//! plane and leaves the vertical component of every vector unchanged — is
//! carried by the representation itself.
//!
//! The action of a yaw rotation on the horizontal plane is stated exactly,
//! scaled by the (in general irrational) length `L` of `heading`:
//! [`apply_h_x`] and [`apply_h_z`] give `L` times the rotated image of a
//! horizontal vector. At that scale the action is plain integer arithmetic,
//! and its properties — it is an isometry, it sends the reference heading to
//! `heading` itself — are proved below.

use vstd::prelude::*;

verus! {

/// A nonzero direction in the world horizontal plane, in milli-units:
/// the projection of the body's forward axis.
#[derive(Clone, Copy, Debug, PartialEq, Eq, Structural)]
pub struct Heading {
    pub x: i64,
    pub z: i64,
}

impl Heading {
    /// A heading determines a direction only when it is not the zero vector.
    pub open spec fn wf(self) -> bool {
        !(self.x == 0 && self.z == 0)
    }

    /// Squared length of the heading (the square of the scale `L` at which
    /// the rotation action is stated).
    pub open spec fn len_sq(self) -> int {
        self.x * self.x + self.z * self.z
    }
}

/// A rotation about the world vertical axis, represented by the heading it
/// turns the reference direction `(0, -1)` into, and by the sign of its
/// axis: `(0, +1, 0)`, or `(0, -1, 0)` when `axis_flipped`.
#[derive(Clone, Copy, Debug, PartialEq, Eq, Structural)]
pub struct YawRotation {
    pub axis_flipped: bool,
    pub heading: Heading,
}

impl YawRotation {
    pub open spec fn wf(self) -> bool {
        self.heading.wf()
    }

    /// The identity rotation: reference heading, upright axis.
    pub open spec fn identity_spec() -> YawRotation {
        YawRotation { axis_flipped: false, heading: Heading { x: 0i64, z: -1000i64 } }
    }

    /// The identity rotation: reference heading, upright axis.
    pub fn identity() -> (r: YawRotation)
        ensures
            r == YawRotation::identity_spec(),
            r.wf(),
    {
        YawRotation { axis_flipped: false, heading: Heading { x: 0, z: -1000 } }
    }
}

/// `L` times the x-component of the image of the horizontal vector
/// `(x, z)` under `r`, where `L` is the length of `r.heading`.
pub open spec fn apply_h_x(r: YawRotation, x: int, z: int) -> int {
    if !r.axis_flipped {
        -(r.heading.z * x) - (r.heading.x * z)
    } else {
        -(r.heading.z * x) + (r.heading.x * z)
    }
}

/// `L` times the z-component of the image of the horizontal vector
/// `(x, z)` under `r`, where `L` is the length of `r.heading`.
pub open spec fn apply_h_z(r: YawRotation, x: int, z: int) -> int {
    if !r.axis_flipped {
        (r.heading.x * x) - (r.heading.z * z)
    } else {
        -(r.heading.x * x) - (r.heading.z * z)
    }
}

/// A yaw rotation is an isometry of the horizontal plane: the squared
/// length of the (L-scaled) image equals `L^2` times the squared length of
/// the argument — the action neither stretches, shrinks nor shears.
/// Together with the representation's fixed vertical axis this is the
/// "pure yaw" law: the whole action happens inside the horizontal plane.
pub proof fn lemma_yaw_action_is_isometry(r: YawRotation, x: int, z: int)
    ensures
        apply_h_x(r, x, z) * apply_h_x(r, x, z) + apply_h_z(r, x, z) * apply_h_z(r, x, z)
            == r.heading.len_sq() * (x * x + z * z),
{
    let hx = r.heading.x as int;
    let hz = r.heading.z as int;
    let p1 = hz * x;
    let q1 = hx * z;
    let p2 = hx * x;
    let q2 = hz * z;
    lemma_square_of_sum(p1, q1);
    lemma_square_of_diff(p2, q2);
    lemma_square_of_diff(p1, q1);
    lemma_square_of_sum(p2, q2);
    lemma_product_regroup(hz, x, hz, x);
    lemma_product_regroup(hx, z, hx, z);
    lemma_product_regroup(hx, x, hx, x);
    lemma_product_regroup(hz, z, hz, z);
    lemma_product_regroup(hz, x, hx, z);
    lemma_product_regroup(hx, x, hz, z);
    lemma_mul_comm(hz, hx);
    lemma_expand_mul_sum(hx * hx, hz * hz, x * x, z * z);
}

/// `(p + q)^2 = p^2 + 2pq + q^2`, also with both summands negated.
proof fn lemma_square_of_sum(p: int, q: int)
    ensures
        (p + q) * (p + q) == p * p + 2 * (p * q) + q * q,
        (-p - q) * (-p - q) == p * p + 2 * (p * q) + q * q,
{
    assert((p + q) * (p + q) == p * p + 2 * (p * q) + q * q) by (nonlinear_arith);
    assert((-p - q) * (-p - q) == p * p + 2 * (p * q) + q * q) by (nonlinear_arith);
}

/// `(p - q)^2 = p^2 - 2pq + q^2`, also with the difference reversed.
proof fn lemma_square_of_diff(p: int, q: int)
    ensures
        (p - q) * (p - q) == p * p - 2 * (p * q) + q * q,
        (q - p) * (q - p) == p * p - 2 * (p * q) + q * q,
{
    assert((p - q) * (p - q) == p * p - 2 * (p * q) + q * q) by (nonlinear_arith);
    assert((q - p) * (q - p) == p * p - 2 * (p * q) + q * q) by (nonlinear_arith);
}

/// `(ab)(cd) = (ac)(bd)`: products commute and reassociate.
proof fn lemma_product_regroup(a: int, b: int, c: int, d: int)
    ensures
        (a * b) * (c * d) == (a * c) * (b * d),
{
    assert((a * b) * (c * d) == (a * c) * (b * d)) by (nonlinear_arith);
}

/// Multiplication commutes.
proof fn lemma_mul_comm(a: int, b: int)
    ensures
        a * b == b * a,
{
    assert(a * b == b * a) by (nonlinear_arith);
}

/// Products distribute over two-term sums on both sides.
proof fn lemma_expand_mul_sum(a: int, b: int, c: int, d: int)
    ensures
        (a + b) * (c + d) == a * c + a * d + b * c + b * d,
{
    assert((a + b) * (c + d) == a * c + a * d + b * c + b * d) by (nonlinear_arith);
}

/// A vector with no horizontal part is fixed by every yaw rotation: the
/// horizontal image of `(0, 0)` is `(0, 0)`, and the vertical component is
/// untouched by the action. This is what lets the ground probe place its
/// ray origins straight above and below the body whatever the basis.
pub proof fn lemma_yaw_action_fixes_vertical(r: YawRotation)
    ensures
        apply_h_x(r, 0, 0) == 0,
        apply_h_z(r, 0, 0) == 0,
{
}

/// The rotation built from a heading sends the reference direction
/// `(0, -1)` to that very heading (L-scaled image of the unit reference is
/// the heading itself): the yaw basis aligns reference forward with the
/// body's heading.
pub proof fn lemma_yaw_aligns_reference(r: YawRotation)
    requires
        !r.axis_flipped,
    ensures
        apply_h_x(r, 0, -1) == r.heading.x,
        apply_h_z(r, 0, -1) == r.heading.z,
{
}

/// The flipped-axis rotation built from the same heading sends the
/// reference direction to the heading mirrored in x: control directions
/// are reflected left-to-right exactly when the body lies on its other
/// face.
pub proof fn lemma_flipped_yaw_mirrors_reference(r: YawRotation)
    requires
        r.axis_flipped,
    ensures
        apply_h_x(r, 0, -1) == -r.heading.x,
        apply_h_z(r, 0, -1) == r.heading.z,
{
}

} // verus!

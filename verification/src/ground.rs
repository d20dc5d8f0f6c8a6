//! The ground probe: grounded detection that works on either face.
//!
//! Because the body can rest on heads or tails, a single downward ray is
//! not enough. The probe casts two short rays from the body, offset along
//! plus and minus the orientation basis's up axis, each pointed toward the
//! opposite side; the body is grounded if either ray hits solid geometry
//! within a short distance. The ray cast itself is a read-only world query
//! of the physics engine; this module states exactly which rays to cast
//! and decides from their answers.

use vstd::prelude::*;

use crate::game_const::COORD_LIMIT;
use crate::game_const::PROBE_DISTANCE;
use crate::game_const::PROBE_OFFSET;
use crate::game_const::SCALE;
use crate::rotation::YawRotation;
use crate::rotation::apply_h_x;
use crate::rotation::apply_h_z;
use crate::rotation::lemma_yaw_action_fixes_vertical;
use crate::vec::Vec3Fx;

verus! {

/// One ray query for the engine: cast from `origin` along `direction`
/// (a milli-unit vector) for at most `max_distance`. The query excludes
/// the body's own collider.
#[derive(Clone, Copy, Debug, PartialEq, Eq, Structural)]
pub struct ProbeRay {
    pub origin: Vec3Fx,
    pub direction: Vec3Fx,
    pub max_distance: i64,
}

/// The pair of rays that decide grounded for a body at `position` under
/// the orientation basis `basis`.
///
/// Ray `below` starts `PROBE_OFFSET` against the basis's up axis and
/// points further that way; ray `above` starts `PROBE_OFFSET` along the
/// up axis and points back up. The basis is a pure yaw rotation, so its
/// action fixes vertical vectors ([`lemma_yaw_action_fixes_vertical`]) and
/// both offsets land exactly on the world vertical through the body —
/// which the postconditions state outright.
pub fn probe_rays(position: &Vec3Fx, basis: &YawRotation) -> (rays: (ProbeRay, ProbeRay))
    requires
        basis.wf(),
        -COORD_LIMIT <= position.y <= COORD_LIMIT,
    ensures
        rays.0.origin == (Vec3Fx { x: position.x, y: (position.y - PROBE_OFFSET) as i64, z: position.z }),
        rays.0.direction == (Vec3Fx { x: 0i64, y: (-SCALE) as i64, z: 0i64 }),
        rays.0.max_distance == PROBE_DISTANCE,
        rays.1.origin == (Vec3Fx { x: position.x, y: (position.y + PROBE_OFFSET) as i64, z: position.z }),
        rays.1.direction == (Vec3Fx { x: 0i64, y: SCALE, z: 0i64 }),
        rays.1.max_distance == PROBE_DISTANCE,
        apply_h_x(*basis, 0, 0) == 0 && apply_h_z(*basis, 0, 0) == 0,
{
    proof {
        lemma_yaw_action_fixes_vertical(*basis);
    }
    let below = ProbeRay {
        origin: Vec3Fx { x: position.x, y: position.y - PROBE_OFFSET, z: position.z },
        direction: Vec3Fx { x: 0, y: -SCALE, z: 0 },
        max_distance: PROBE_DISTANCE,
    };
    let above = ProbeRay {
        origin: Vec3Fx { x: position.x, y: position.y + PROBE_OFFSET, z: position.z },
        direction: Vec3Fx { x: 0, y: SCALE, z: 0 },
        max_distance: PROBE_DISTANCE,
    };
    (below, above)
}

/// Whether a single ray answer counts as solid ground: a hit was reported
/// and its distance is within the probe range.
pub open spec fn hit_within_range(hit: Option<i64>) -> bool {
    match hit {
        Some(d) => 0 <= d <= PROBE_DISTANCE,
        None => false,
    }
}

/// Decides grounded from the two ray answers: true exactly when either
/// probe reports a solid surface within [`PROBE_DISTANCE`]. A ray that
/// finds nothing is an expected, non-error outcome — not grounded.
pub fn is_grounded(hit_below: &Option<i64>, hit_above: &Option<i64>) -> (grounded: bool)
    ensures
        grounded == (hit_within_range(*hit_below) || hit_within_range(*hit_above)),
{
    let below = match hit_below {
        Some(d) => 0 <= *d && *d <= PROBE_DISTANCE,
        None => false,
    };
    let above = match hit_above {
        Some(d) => 0 <= *d && *d <= PROBE_DISTANCE,
        None => false,
    };
    below || above
}

} // verus!

//! The two projections between the 2D pose and the native 3D pose.
//!
//! These are the only place where the native representation's semantics are
//! encoded.  Both directions are pure per-entity conversions:
//!
//! * [`project_to_3d`] writes a [`Transform2d`] into a native pose.  It
//!   writes only a Z-axis rotation, forces the native Z scale to 1 (so
//!   descendants' draw order is not skewed), and touches the native Z
//!   position only when a depth override is supplied — otherwise whatever the
//!   native side already had is preserved, so native-only systems that manage
//!   depth directly are not fought with.
//! * [`project_to_2d`] reads a native pose back.  It keeps the planar
//!   translation and scale, records the native Z position as the pose's
//!   depth, and projects the orientation onto the Z axis by taking the Z
//!   component of its ZYX Euler decomposition: any off-plane tilt a physics
//!   or animation system wrote is deliberately discarded.

use vstd::prelude::*;

use crate::isqrt::lemma_isqrt_unique;
use crate::transform2d::Transform2d;
use crate::transform2d::Transform2dModel;
use crate::transform3d::lemma_from_rotor_bounded;
use crate::transform3d::lemma_rotor_reencode_stable;
use crate::transform3d::Quat;
use crate::transform3d::QuatModel;
use crate::transform3d::Transform3d;
use crate::transform3d::Transform3dModel;
use crate::vec3::Vec3;
use crate::vec3::Vec3Model;

verus! {

/// The depth that a projection writes: the override when present, the prior
/// native Z position otherwise.
pub open spec fn depth_or(depth: Option<int>, prior_z: int) -> int {
    match depth {
        Some(d) => d,
        None => prior_z,
    }
}

/// Mathematical value of an optional depth override.
pub open spec fn depth_view(depth: Option<i64>) -> Option<int> {
    match depth {
        Some(d) => Some(d as int),
        None => None,
    }
}

/// What [`project_to_3d`] returns: the pose's planar translation and scale,
/// its rotation about the Z axis only, the chosen depth, and a native Z
/// scale forced to 1.
pub open spec fn project_to_3d_model(
    pose: Transform2dModel,
    depth: Option<int>,
    prior: Transform3dModel,
) -> Transform3dModel {
    Transform3dModel {
        translation: Vec3Model {
            x: pose.translation.x,
            y: pose.translation.y,
            z: depth_or(depth, prior.translation.z),
        },
        rotation: QuatModel::from_rotor(pose.rotation),
        scale: Vec3Model { x: pose.scale.x, y: pose.scale.y, z: 1 },
    }
}

/// What [`project_to_2d`] returns: the native planar translation and scale,
/// the native Z position as the pose's depth, and the orientation's ZYX
/// Euler Z component as the rotation.
pub open spec fn project_to_2d_model(native: Transform3dModel) -> Transform2dModel {
    Transform2dModel {
        translation: native.translation.truncate(),
        rotation: native.rotation.yaw(),
        scale: native.scale.truncate(),
        z_translation: native.translation.z,
    }
}

/// Project a 2D pose into the equivalent native 3D pose.
pub fn project_to_3d(pose: &Transform2d, depth: Option<i64>, prior: &Transform3d) -> (r:
    Transform3d)
    requires
        pose@.rotation.bounded(),
    ensures
        r@ == project_to_3d_model(pose@, depth_view(depth), prior@),
        r@.rotation.bounded(),
{
    proof {
        lemma_from_rotor_bounded(pose@.rotation);
    }
    let z = match depth {
        Some(d) => d,
        None => prior.translation.z,
    };
    Transform3d {
        translation: Vec3 { x: pose.translation.x, y: pose.translation.y, z },
        rotation: Quat::from_rotation_z(&pose.rotation),
        scale: Vec3 { x: pose.scale.x, y: pose.scale.y, z: 1 },
    }
}

/// Project a native 3D pose back into the equivalent 2D pose.
pub fn project_to_2d(native: &Transform3d) -> (r: Transform2d)
    requires
        native@.rotation.bounded(),
    ensures
        r@ == project_to_2d_model(native@),
{
    Transform2d {
        translation: native.translation.truncate(),
        rotation: native.rotation.yaw(),
        scale: native.scale.truncate(),
        z_translation: native.translation.z,
    }
}

/// The 2D-to-3D projection never writes anything off the plane: the
/// orientation it produces has no X or Y component, and the native Z scale
/// is always exactly 1.
pub proof fn lemma_project_to_3d_planar(
    pose: Transform2dModel,
    depth: Option<int>,
    prior: Transform3dModel,
)
    ensures
        project_to_3d_model(pose, depth, prior).rotation.x == 0,
        project_to_3d_model(pose, depth, prior).rotation.y == 0,
        project_to_3d_model(pose, depth, prior).scale.z == 1,
{
}

/// Depth handling: with no override, projecting leaves the native Z position
/// exactly as it was, no matter how often it is repeated or how the 2D pose
/// moves in the plane meanwhile; with an override, the native Z position is
/// exactly the override.
pub proof fn lemma_project_to_3d_depth(
    pose: Transform2dModel,
    later: Transform2dModel,
    d: int,
    prior: Transform3dModel,
)
    ensures
        project_to_3d_model(pose, None, prior).translation.z == prior.translation.z,
        project_to_3d_model(later, None, project_to_3d_model(pose, None, prior)).translation.z
            == prior.translation.z,
        project_to_3d_model(pose, Some(d), prior).translation.z == d,
{
}

/// Round trip: projecting a 2D pose into the native representation and back
/// reproduces its translation and scale exactly and records the chosen
/// depth; when the rotation rotor is unit — when it stands for an angle — it
/// is reproduced up to a full turn, since the native orientation encodes
/// only the angle's direction, not its winding.
pub proof fn lemma_project_round_trip(
    pose: Transform2dModel,
    depth: Option<int>,
    prior: Transform3dModel,
)
    ensures
        ({
            let native = project_to_3d_model(pose, depth, prior);
            let back = project_to_2d_model(native);
            &&& back.translation == pose.translation
            &&& back.scale == pose.scale
            &&& back.z_translation == native.translation.z
            &&& pose.rotation.is_unit() ==> back.rotation.same_direction(pose.rotation)
        }),
{
    let c = pose.rotation.cos;
    let s = pose.rotation.sin;
    let q = QuatModel::from_rotor(pose.rotation);
    if !pose.rotation.is_unit() {
    } else if c == 0 && s == 0 {
        // Excluded: the zero rotor is not unit.
        assert(c * c + s * s == 0) by (nonlinear_arith)
            requires
                c == 0,
                s == 0,
        ;
    } else if s == 0 && c < 0 {
        // A half turn: its exact quaternion is (0, 0, 1, 0), whose yaw is the
        // rotor (-1, 0), and unitness forces the rotor to be exactly that.
        assert(c == -1) by (nonlinear_arith)
            requires
                c * c + s * s == 1,
                s == 0,
                c < 0,
        ;
        assert(q.w * q.w == 0 && q.x * q.x == 0 && q.y * q.y == 0 && q.z * q.z == 1 && q.w * q.z
            == 0 && q.x * q.y == 0) by (nonlinear_arith)
            requires
                q.w == 0,
                q.x == 0,
                q.y == 0,
                q.z == 1,
        ;
        assert(q.yaw() == (crate::rot2::Rot2Model { cos: -1, sin: 0 }));
    } else {
        // Everywhere else the quaternion is (0, 0, s, 1 + c), and its yaw
        // works out to (1 + c)-scaled copies of the original rotor, a
        // positive scaling because unitness excludes c <= -1 here.
        assert(1 * 1 <= 1int && 1int < (1 + 1) * (1 + 1)) by (nonlinear_arith);
        lemma_isqrt_unique(c * c + s * s, 1);
        assert(q.w == 1 + c);
        let a = q.w * q.w + q.x * q.x - q.y * q.y - q.z * q.z;
        let b = 2 * (q.w * q.z + q.x * q.y);
        assert(a == 2 * c * (1 + c) && b == 2 * s * (1 + c)) by (nonlinear_arith)
            requires
                q.w == 1 + c,
                q.z == s,
                q.x == 0,
                q.y == 0,
                a == q.w * q.w + q.x * q.x - q.y * q.y - q.z * q.z,
                b == 2 * (q.w * q.z + q.x * q.y),
                c * c + s * s == 1,
        ;
        assert(c > -1) by (nonlinear_arith)
            requires
                c * c + s * s == 1,
                !(s == 0 && c < 0),
        ;
        assert(!(a == 0 && b == 0)) by (nonlinear_arith)
            requires
                a == 2 * c * (1 + c),
                b == 2 * s * (1 + c),
                c * c + s * s == 1,
                c > -1,
        ;
        assert(a * s == b * c) by (nonlinear_arith)
            requires
                a == 2 * c * (1 + c),
                b == 2 * s * (1 + c),
        ;
        assert(a * c + b * s > 0) by (nonlinear_arith)
            requires
                a == 2 * c * (1 + c),
                b == 2 * s * (1 + c),
                c * c + s * s == 1,
                c > -1,
        ;
    }
}

/// Projecting twice is as good as projecting once: for *every* pose — in
/// particular one the library itself wrote back, whose rotor is a scaled
/// direction pair rather than a unit rotor — running the pose through the
/// native representation a second time reproduces its translation and scale
/// exactly, records the chosen depth, and keeps the exact direction of its
/// rotation.  The written orientation depends only on the rotor's direction
/// here because a read-back rotor's squared length is always a perfect
/// square, which [`QuatModel::from_rotor`] takes the exact root of.
pub proof fn lemma_project_idempotent(
    pose: Transform2dModel,
    depth: Option<int>,
    prior: Transform3dModel,
    depth_again: Option<int>,
    prior_again: Transform3dModel,
)
    ensures
        ({
            let once = project_to_2d_model(project_to_3d_model(pose, depth, prior));
            let native_again = project_to_3d_model(once, depth_again, prior_again);
            let twice = project_to_2d_model(native_again);
            &&& twice.translation == once.translation
            &&& twice.scale == once.scale
            &&& twice.z_translation == native_again.translation.z
            &&& depth_again == Some(once.z_translation) ==> twice.z_translation
                == once.z_translation
            &&& twice.rotation.same_direction(once.rotation)
        }),
{
    lemma_rotor_reencode_stable(pose.rotation);
}

} // verus!

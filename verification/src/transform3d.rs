//! The native 3D pose: translation, orientation quaternion and scale.
//!
//! This is the representation a 3D host engine keeps for every entity.  The
//! orientation is a quaternion with exact integer components, read
//! projectively: a quaternion and any positive scaling of it denote the same
//! orientation, which lets exact integer arithmetic stand in for the usual
//! normalized (unit) quaternions.

use vstd::prelude::*;

use crate::isqrt::isqrt;
use crate::isqrt::isqrt_i64;
use crate::isqrt::lemma_isqrt_bounds;
use crate::isqrt::lemma_isqrt_unique;
use crate::rot2::Rot2;
use crate::rot2::Rot2Model;
use crate::vec2::lemma_mul_coord_bound;
use crate::vec3::Vec3;
use crate::vec3::Vec3Model;

verus! {

/// Mathematical value of a [`Quat`]: four unbounded integer components.
pub struct QuatModel {
    pub x: int,
    pub y: int,
    pub z: int,
    pub w: int,
}

impl QuatModel {
    /// The squared length of the quaternion.
    pub open spec fn norm2(self) -> int {
        self.x * self.x + self.y * self.y + self.z * self.z + self.w * self.w
    }

    /// The squared length fits the 64-bit range; every product and partial
    /// sum in the yaw computation is then exact.
    pub open spec fn bounded(self) -> bool {
        self.norm2() <= i64::MAX
    }

    /// The identity orientation.
    pub open spec fn identity() -> QuatModel {
        QuatModel { x: 0, y: 0, z: 0, w: 1 }
    }

    /// The orientation that rotates by the rotor `r` about the Z axis.
    ///
    /// A rotation by theta about Z is the unit quaternion
    /// `(0, 0, sin(theta/2), cos(theta/2))`.  Scaling it by the positive
    /// factor `2 l cos(theta/2)`, where `l` is the rotor's length, gives
    /// `(0, 0, l sin theta, l + l cos theta)` by the half-angle identities.
    /// So wherever the rotor's squared length is a perfect square — every
    /// unit rotor, and every rotor [`Self::yaw`] produces from a Z-axis
    /// orientation — the quaternion below is an exact positive scaling of
    /// that unit quaternion: the orientation depends only on the rotor's
    /// direction, never on its magnitude.  Elsewhere the floor square root
    /// makes it the nearest representable orientation.  The scaling factor
    /// vanishes at a half turn, whose rotors get the exact quaternion
    /// `(0, 0, 1, 0)`, and the degenerate zero rotor maps to the identity
    /// orientation.
    pub open spec fn from_rotor(r: Rot2Model) -> QuatModel {
        if r.cos == 0 && r.sin == 0 {
            QuatModel { x: 0, y: 0, z: 0, w: 1 }
        } else if r.sin == 0 && r.cos < 0 {
            QuatModel { x: 0, y: 0, z: 1, w: 0 }
        } else {
            QuatModel { x: 0, y: 0, z: r.sin, w: isqrt(r.cos * r.cos + r.sin * r.sin) + r.cos }
        }
    }

    /// The Z component of this orientation's ZYX Euler decomposition, as a
    /// rotor.
    ///
    /// For a unit quaternion the decomposition that extracts Z first yields a
    /// yaw angle whose tangent is `2(wz + xy) / (1 - 2(y^2 + z^2))`, and
    /// `1 - 2(y^2 + z^2)` equals `w^2 + x^2 - y^2 - z^2` on the unit sphere.
    /// Both of those expressions scale with the squared length of the
    /// quaternion, so the pair below denotes the yaw direction of *any*
    /// nonzero quaternion, unit or not.  At the decomposition's singularity
    /// (both components zero) the yaw is taken to be zero.
    pub open spec fn yaw(self) -> Rot2Model {
        let a = self.w * self.w + self.x * self.x - self.y * self.y - self.z * self.z;
        let b = 2 * (self.w * self.z + self.x * self.y);
        if a == 0 && b == 0 {
            Rot2Model::identity()
        } else {
            Rot2Model { cos: a, sin: b }
        }
    }
}

/// An orientation in 3D space: a quaternion with exact integer components,
/// read projectively (positive scalings denote the same orientation).
#[derive(Clone, Copy, Debug, PartialEq, Eq, Structural)]
pub struct Quat {
    pub x: i64,
    pub y: i64,
    pub z: i64,
    pub w: i64,
}

impl View for Quat {
    type V = QuatModel;

    open spec fn view(&self) -> QuatModel {
        QuatModel { x: self.x as int, y: self.y as int, z: self.z as int, w: self.w as int }
    }
}

impl Quat {
    pub fn new(x: i64, y: i64, z: i64, w: i64) -> (q: Quat)
        ensures
            q@ == (QuatModel { x: x as int, y: y as int, z: z as int, w: w as int }),
    {
        Quat { x, y, z, w }
    }

    /// The identity orientation.
    pub fn identity() -> (q: Quat)
        ensures
            q@ == QuatModel::identity(),
    {
        Quat { x: 0, y: 0, z: 0, w: 1 }
    }

    /// The orientation that rotates by `r` about the Z axis and leaves the
    /// other two axes alone.
    pub fn from_rotation_z(r: &Rot2) -> (q: Quat)
        requires
            r@.bounded(),
        ensures
            q@ == QuatModel::from_rotor(r@),
            q@.bounded(),
    {
        proof {
            lemma_from_rotor_bounded(r@);
        }
        if r.cos == 0 && r.sin == 0 {
            Quat { x: 0, y: 0, z: 0, w: 1 }
        } else if r.sin == 0 && r.cos < 0 {
            Quat { x: 0, y: 0, z: 1, w: 0 }
        } else {
            proof {
                lemma_mul_coord_bound(r@.cos, r@.cos);
                lemma_mul_coord_bound(r@.sin, r@.sin);
                assert(0 <= r@.cos * r@.cos && 0 <= r@.sin * r@.sin) by (nonlinear_arith);
            }
            let n2 = r.cos * r.cos + r.sin * r.sin;
            let l = isqrt_i64(n2);
            proof {
                lemma_rotor_norm_root_bound(r@);
            }
            Quat { x: 0, y: 0, z: r.sin, w: l + r.cos }
        }
    }

    /// The Z component of this orientation's ZYX Euler decomposition, as a
    /// rotor.  Whatever this orientation does outside the plane is discarded.
    pub fn yaw(&self) -> (r: Rot2)
        requires
            self@.bounded(),
        ensures
            r@ == self@.yaw(),
    {
        proof {
            lemma_quat_square_bounds(self@);
        }
        let a = self.w * self.w + self.x * self.x - self.y * self.y - self.z * self.z;
        let b = 2 * (self.w * self.z + self.x * self.y);
        if a == 0 && b == 0 {
            Rot2::identity()
        } else {
            Rot2 { cos: a, sin: b }
        }
    }
}

/// Every square of a component is between zero and the squared length, and
/// twice a cross product of two components is bounded by the squared length
/// in magnitude; with the squared length in the 64-bit range, the whole yaw
/// computation is exact.
proof fn lemma_quat_square_bounds(q: QuatModel)
    ensures
        0 <= q.x * q.x <= q.norm2(),
        0 <= q.y * q.y <= q.norm2(),
        0 <= q.z * q.z <= q.norm2(),
        0 <= q.w * q.w <= q.norm2(),
        -(q.w * q.w + q.z * q.z) <= 2 * (q.w * q.z) <= q.w * q.w + q.z * q.z,
        -(q.x * q.x + q.y * q.y) <= 2 * (q.x * q.y) <= q.x * q.x + q.y * q.y,
{
    let x = q.x;
    let y = q.y;
    let z = q.z;
    let w = q.w;
    assert(0 <= x * x && 0 <= y * y && 0 <= z * z && 0 <= w * w) by (nonlinear_arith);
    assert((w - z) * (w - z) == w * w - 2 * (w * z) + z * z && (w + z) * (w + z) == w * w + 2 * (
    w * z) + z * z && 0 <= (w - z) * (w - z) && 0 <= (w + z) * (w + z)) by (nonlinear_arith);
    assert((x - y) * (x - y) == x * x - 2 * (x * y) + y * y && (x + y) * (x + y) == x * x + 2 * (
    x * y) + y * y && 0 <= (x - y) * (x - y) && 0 <= (x + y) * (x + y)) by (nonlinear_arith);
}

/// The square root of a bounded rotor's squared length stays within
/// `sqrt(2) * MAX_COORD`, so the projected quaternion's scalar component
/// fits and its squared length stays within the 64-bit range.
proof fn lemma_rotor_norm_root_bound(r: Rot2Model)
    requires
        r.bounded(),
    ensures
        0 <= isqrt(r.cos * r.cos + r.sin * r.sin) <= 1_414_213_562,
        isqrt(r.cos * r.cos + r.sin * r.sin) + r.cos >= 0,
{
    let n2 = r.cos * r.cos + r.sin * r.sin;
    lemma_mul_coord_bound(r.cos, r.cos);
    lemma_mul_coord_bound(r.sin, r.sin);
    assert(0 <= r.cos * r.cos && 0 <= r.sin * r.sin) by (nonlinear_arith);
    lemma_isqrt_bounds(n2);
    let l = isqrt(n2);
    if l >= 1_414_213_563 {
        assert(l * l >= 1_414_213_563 * 1_414_213_563int) by (nonlinear_arith)
            requires
                l >= 1_414_213_563,
        ;
    }
    if l + r.cos < 0 {
        assert((l + 1) * (l + 1) <= r.cos * r.cos) by (nonlinear_arith)
            requires
                0 <= l,
                l + 1 <= -r.cos,
        ;
    }
}

/// Projecting a bounded rotor yields a bounded orientation: the read-back
/// and the write-out compose for every admitted pose.
pub proof fn lemma_from_rotor_bounded(r: Rot2Model)
    requires
        r.bounded(),
    ensures
        QuatModel::from_rotor(r).bounded(),
{
    let q = QuatModel::from_rotor(r);
    if r.cos == 0 && r.sin == 0 {
    } else if r.sin == 0 && r.cos < 0 {
    } else {
        lemma_rotor_norm_root_bound(r);
        lemma_mul_coord_bound(r.sin, r.sin);
        let w = isqrt(r.cos * r.cos + r.sin * r.sin) + r.cos;
        assert(w * w <= 2_414_213_562 * 2_414_213_562int) by (nonlinear_arith)
            requires
                0 <= w <= 2_414_213_562,
        ;
    }
}

/// Re-encoding a read-back rotation preserves it exactly in direction:
/// whatever rotor a pose carries, the rotor read back from its written
/// orientation re-projects to an orientation whose own read-back has the
/// same direction.  A read-back rotor's squared length is always a perfect
/// square, so [`QuatModel::from_rotor`] takes its exact root, and the
/// library's write-then-read-back cycle cannot drift.
pub proof fn lemma_rotor_reencode_stable(r: Rot2Model)
    ensures
        QuatModel::from_rotor(QuatModel::from_rotor(r).yaw()).yaw().same_direction(
            QuatModel::from_rotor(r).yaw(),
        ),
{
    let q1 = QuatModel::from_rotor(r);
    let r2 = q1.yaw();
    let q2 = QuatModel::from_rotor(r2);
    let r3 = q2.yaw();
    if r.cos == 0 && r.sin == 0 {
        // The zero rotor maps to the identity orientation, whose yaw is the
        // identity rotor; that re-encodes to (0, 0, 0, 2) with yaw (4, 0).
        assert(q1.w * q1.w == 1 && q1.x * q1.x == 0 && q1.y * q1.y == 0 && q1.z * q1.z == 0
            && q1.w * q1.z == 0 && q1.x * q1.y == 0) by (nonlinear_arith)
            requires
                q1.w == 1,
                q1.x == 0,
                q1.y == 0,
                q1.z == 0,
        ;
        assert(r2 == (Rot2Model { cos: 1, sin: 0 }));
        assert(r2.cos * r2.cos == 1 && r2.sin * r2.sin == 0 && 1 * 1 == 1int && (1 + 1) * (1 + 1)
            == 4int) by (nonlinear_arith)
            requires
                r2.cos == 1,
                r2.sin == 0,
        ;
        lemma_isqrt_unique(r2.cos * r2.cos + r2.sin * r2.sin, 1);
        assert(q2 == (QuatModel { x: 0, y: 0, z: 0, w: 2 }));
        assert(q2.w * q2.w == 4 && q2.x * q2.x == 0 && q2.y * q2.y == 0 && q2.z * q2.z == 0
            && q2.w * q2.z == 0 && q2.x * q2.y == 0) by (nonlinear_arith)
            requires
                q2.w == 2,
                q2.x == 0,
                q2.y == 0,
                q2.z == 0,
        ;
        assert(r3 == (Rot2Model { cos: 4, sin: 0 }));
        assert(r3.cos * r2.sin == 0 && r3.sin * r2.cos == 0 && r3.cos * r2.cos + r3.sin * r2.sin
            == 4) by (nonlinear_arith)
            requires
                r3.cos == 4,
                r3.sin == 0,
                r2.cos == 1,
                r2.sin == 0,
        ;
    } else if r.sin == 0 && r.cos < 0 {
        // Half turns re-encode to the exact quaternion (0, 0, 1, 0) again.
        assert(q1.w * q1.w == 0 && q1.x * q1.x == 0 && q1.y * q1.y == 0 && q1.z * q1.z == 1
            && q1.w * q1.z == 0 && q1.x * q1.y == 0) by (nonlinear_arith)
            requires
                q1.w == 0,
                q1.x == 0,
                q1.y == 0,
                q1.z == 1,
        ;
        assert(r2 == (Rot2Model { cos: -1, sin: 0 }));
        assert(q2 == (QuatModel { x: 0, y: 0, z: 1, w: 0 }));
        assert(r3 == r2);
        assert(r3.cos * r2.sin == 0 && r3.sin * r2.cos == 0 && r3.cos * r2.cos + r3.sin * r2.sin
            == 1) by (nonlinear_arith)
            requires
                r3.cos == -1,
                r3.sin == 0,
                r2.cos == -1,
                r2.sin == 0,
        ;
    } else {
        let c = r.cos;
        let s = r.sin;
        assert(0 <= c * c && 0 <= s * s) by (nonlinear_arith);
        lemma_isqrt_bounds(c * c + s * s);
        let l = isqrt(c * c + s * s);
        // The root is at least the cosine's magnitude, so the scalar part of
        // the written quaternion (0, 0, b1, a1) is nonnegative.
        if l + c < 0 {
            assert((l + 1) * (l + 1) <= c * c) by (nonlinear_arith)
                requires
                    0 <= l,
                    l + 1 <= -c,
            ;
        }
        let a1 = l + c;
        let b1 = s;
        assert(q1 == (QuatModel { x: 0, y: 0, z: b1, w: a1 }));
        assert(q1.x * q1.x == 0 && q1.y * q1.y == 0 && q1.x * q1.y == 0) by (nonlinear_arith)
            requires
                q1.x == 0,
                q1.y == 0,
        ;
        if s == 0 {
            // Not a half turn and not zero, so the cosine is positive and the
            // root is exact: the quaternion is (0, 0, 0, 2c), its yaw the
            // rotor (4c^2, 0), and the second pass squares the same way.
            assert(c > 0);
            assert(s * s == 0 && c * c < (c + 1) * (c + 1)) by (nonlinear_arith)
                requires
                    s == 0,
                    c >= 0,
            ;
            lemma_isqrt_unique(c * c + s * s, c);
            let wa = 2 * c;
            assert(a1 == wa);
            assert(q1.z * q1.z == 0 && q1.w * q1.z == 0 && q1.w * q1.w == wa * wa && wa * wa > 0)
                by (nonlinear_arith)
                requires
                    q1.z == 0,
                    q1.w == wa,
                    wa > 0,
            ;
            assert(r2 == (Rot2Model { cos: wa * wa, sin: 0 }));
            assert(r2.sin * r2.sin == 0 && r2.cos * r2.cos == (wa * wa) * (wa * wa) && (wa * wa)
                * (wa * wa) < (wa * wa + 1) * (wa * wa + 1)) by (nonlinear_arith)
                requires
                    r2.sin == 0,
                    r2.cos == wa * wa,
                    wa * wa > 0,
            ;
            lemma_isqrt_unique(r2.cos * r2.cos + r2.sin * r2.sin, wa * wa);
            let w2 = wa * wa + wa * wa;
            assert(q2 == (QuatModel { x: 0, y: 0, z: 0, w: w2 }));
            assert(q2.x * q2.x == 0 && q2.y * q2.y == 0 && q2.z * q2.z == 0 && q2.x * q2.y == 0
                && q2.w * q2.z == 0 && q2.w * q2.w == w2 * w2 && w2 * w2 > 0) by (nonlinear_arith)
                requires
                    q2.x == 0,
                    q2.y == 0,
                    q2.z == 0,
                    q2.w == w2,
                    w2 > 0,
            ;
            assert(r3 == (Rot2Model { cos: w2 * w2, sin: 0 }));
            assert(r3.cos * r2.sin == 0 && r3.sin * r2.cos == 0 && r3.sin * r2.sin == 0 && r3.cos
                * r2.cos > 0) by (nonlinear_arith)
                requires
                    r3.cos == w2 * w2,
                    r3.sin == 0,
                    r2.cos == wa * wa,
                    r2.sin == 0,
                    w2 * w2 > 0,
                    wa * wa > 0,
            ;
        } else if a1 == 0 {
            // The scalar part vanishes: a pure half turn was written.  Its
            // yaw (-b1^2, 0) re-encodes to (0, 0, 1, 0) with yaw (-1, 0),
            // the same direction.
            assert(q1.z * q1.z == b1 * b1 && b1 * b1 > 0 && q1.w * q1.w == 0 && q1.w * q1.z == 0)
                by (nonlinear_arith)
                requires
                    q1.z == b1,
                    q1.w == 0,
                    b1 != 0,
            ;
            assert(r2 == (Rot2Model { cos: -(b1 * b1), sin: 0 }));
            assert(q2 == (QuatModel { x: 0, y: 0, z: 1, w: 0 }));
            assert(q2.w * q2.w == 0 && q2.x * q2.x == 0 && q2.y * q2.y == 0 && q2.z * q2.z == 1
                && q2.w * q2.z == 0 && q2.x * q2.y == 0) by (nonlinear_arith)
                requires
                    q2.w == 0,
                    q2.x == 0,
                    q2.y == 0,
                    q2.z == 1,
            ;
            assert(r3 == (Rot2Model { cos: -1, sin: 0 }));
            assert(r3.cos * r2.sin == 0 && r3.sin * r2.cos == 0 && r3.cos * r2.cos + r3.sin
                * r2.sin == b1 * b1) by (nonlinear_arith)
                requires
                    r3.cos == -1,
                    r3.sin == 0,
                    r2.cos == -(b1 * b1),
                    r2.sin == 0,
            ;
        } else {
            // The general case: the decoded rotor (a1^2 - b1^2, 2 a1 b1) has
            // the perfect squared length (a1^2 + b1^2)^2, so it is re-encoded
            // exactly as 2 a1 (0, 0, b1, a1) — a positive scaling of the
            // orientation it came from — whose yaw scales the decoded rotor
            // by the positive factor 4 a1^2.
            assert(a1 > 0 && b1 != 0);
            let ca = a1 * a1 - b1 * b1;
            let sb = 2 * (a1 * b1);
            assert(q1.w * q1.w == a1 * a1 && q1.z * q1.z == b1 * b1 && q1.w * q1.z == a1 * b1
                && sb != 0) by (nonlinear_arith)
                requires
                    q1.w == a1,
                    q1.z == b1,
                    a1 > 0,
                    b1 != 0,
                    sb == 2 * (a1 * b1),
            ;
            assert(r2 == (Rot2Model { cos: ca, sin: sb }));
            let n = a1 * a1 + b1 * b1;
            assert(ca * ca + sb * sb == n * n && n > 0 && n * n < (n + 1) * (n + 1))
                by (nonlinear_arith)
                requires
                    ca == a1 * a1 - b1 * b1,
                    sb == 2 * (a1 * b1),
                    n == a1 * a1 + b1 * b1,
                    a1 > 0,
                    b1 != 0,
            ;
            assert(r2.cos * r2.cos + r2.sin * r2.sin == n * n) by (nonlinear_arith)
                requires
                    r2.cos == ca,
                    r2.sin == sb,
                    ca * ca + sb * sb == n * n,
            ;
            lemma_isqrt_unique(r2.cos * r2.cos + r2.sin * r2.sin, n);
            assert(q2 == (QuatModel { x: 0, y: 0, z: sb, w: n + ca }));
            let w2 = n + ca;
            assert(w2 == 2 * (a1 * a1));
            let ca3 = w2 * w2 - sb * sb;
            let sb3 = 2 * (w2 * sb);
            assert(q2.x * q2.x == 0 && q2.y * q2.y == 0 && q2.x * q2.y == 0 && q2.w * q2.w == w2
                * w2 && q2.z * q2.z == sb * sb && q2.w * q2.z == w2 * sb && sb3 != 0)
                by (nonlinear_arith)
                requires
                    q2.x == 0,
                    q2.y == 0,
                    q2.w == w2,
                    q2.z == sb,
                    w2 == 2 * (a1 * a1),
                    sb == 2 * (a1 * b1),
                    sb3 == 2 * (w2 * sb),
                    a1 > 0,
                    b1 != 0,
            ;
            assert(r3 == (Rot2Model { cos: ca3, sin: sb3 }));
            assert(ca3 * sb == sb3 * ca) by (nonlinear_arith)
                requires
                    ca3 == w2 * w2 - sb * sb,
                    sb3 == 2 * (w2 * sb),
                    w2 == 2 * (a1 * a1),
                    sb == 2 * (a1 * b1),
                    ca == a1 * a1 - b1 * b1,
            ;
            assert(ca3 * ca + sb3 * sb > 0) by (nonlinear_arith)
                requires
                    ca3 == w2 * w2 - sb * sb,
                    sb3 == 2 * (w2 * sb),
                    w2 == 2 * (a1 * a1),
                    sb == 2 * (a1 * b1),
                    ca == a1 * a1 - b1 * b1,
                    a1 > 0,
                    b1 != 0,
            ;
            assert(r3.cos * r2.sin == r3.sin * r2.cos && r3.cos * r2.cos + r3.sin * r2.sin > 0);
        }
    }
}

/// Mathematical value of a [`Transform3d`].
pub struct Transform3dModel {
    pub translation: Vec3Model,
    pub rotation: QuatModel,
    pub scale: Vec3Model,
}

impl Transform3dModel {
    pub open spec fn identity() -> Transform3dModel {
        Transform3dModel {
            translation: Vec3Model::zero(),
            rotation: QuatModel::identity(),
            scale: Vec3Model::one(),
        }
    }
}

/// The native 3D pose of an entity, as a 3D host engine stores it.
#[derive(Clone, Copy, Debug, PartialEq, Eq, Structural)]
pub struct Transform3d {
    pub translation: Vec3,
    pub rotation: Quat,
    pub scale: Vec3,
}

impl View for Transform3d {
    type V = Transform3dModel;

    open spec fn view(&self) -> Transform3dModel {
        Transform3dModel {
            translation: self.translation@,
            rotation: self.rotation@,
            scale: self.scale@,
        }
    }
}

impl Transform3d {
    /// The identity pose: no translation, no rotation, unit scale.
    pub fn identity() -> (t: Transform3d)
        ensures
            t@ == Transform3dModel::identity(),
    {
        Transform3d { translation: Vec3::zero(), rotation: Quat::identity(), scale: Vec3::one() }
    }
}

} // verus!

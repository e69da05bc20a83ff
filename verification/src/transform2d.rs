//! The 2D pose of an entity, and the operations a 2D game needs on it.
//!
//! A `Transform2d` is the two-dimensional counterpart of the native
//! [`Transform3d`](crate::transform3d::Transform3d): a planar translation, a
//! single planar rotation, independent X/Y scale factors, and a translation
//! along the third axis that only decides draw order.  It is a plain value
//! with no enforced invariant: zero or negative scales are legitimate
//! (mirroring), and nothing requires the rotation rotor to be unit, though
//! only unit rotors act on points as pure rotations.

use vstd::prelude::*;

use crate::mat::Affine2;
use crate::mat::Affine2Model;
use crate::mat::Mat2;
use crate::mat::Mat2Model;
use crate::mat::Mat3;
use crate::mat::Mat3Model;
use crate::rot2::lemma_apply_compose;
use crate::rot2::lemma_apply_identity;
use crate::rot2::lemma_compose_assoc;
use crate::rot2::lemma_compose_identity;
use crate::rot2::lemma_compose_inverse;
use crate::rot2::lemma_compose_unit;
use crate::rot2::Rot2;
use crate::rot2::Rot2Model;
use crate::vec2::lemma_mul_abs_bound;
use crate::vec2::lemma_mul_coord_bound;
use crate::vec2::MAX_COORD;
use crate::vec2::Vec2;
use crate::vec2::Vec2Model;
use crate::vec3::Vec3;
use crate::vec3::Vec3Model;

verus! {

/// Mathematical value of a [`Transform2d`].
pub struct Transform2dModel {
    pub translation: Vec2Model,
    pub rotation: Rot2Model,
    pub scale: Vec2Model,
    pub z_translation: int,
}

impl Transform2dModel {
    /// No translation, no rotation, unit scale, zero depth.
    pub open spec fn identity() -> Transform2dModel {
        Transform2dModel {
            translation: Vec2Model::zero(),
            rotation: Rot2Model::identity(),
            scale: Vec2Model::one(),
            z_translation: 0,
        }
    }

    /// Translation, rotation and scale all lie within [`MAX_COORD`].
    pub open spec fn bounded(self) -> bool {
        &&& self.translation.bounded()
        &&& self.rotation.bounded()
        &&& self.scale.bounded()
    }

    /// The translation orbited about `point` by the rotor `r`:
    /// `point + R(r) (translation - point)`.  Rotation, scale and depth are
    /// untouched.
    pub open spec fn translate_around(self, point: Vec2Model, r: Rot2Model) -> Transform2dModel {
        Transform2dModel {
            translation: point.add(r.apply(self.translation.sub(point))),
            ..self
        }
    }

    /// Orbit about `point` by the rotor `r` and also spin by it: the
    /// translation as in [`Self::translate_around`], and the rotor composed
    /// onto the rotation.
    pub open spec fn rotate_around(self, point: Vec2Model, r: Rot2Model) -> Transform2dModel {
        Transform2dModel {
            rotation: self.rotation.compose(r),
            ..self.translate_around(point, r)
        }
    }
}

/// The 2D pose of an entity: planar translation, rotation, scale, and a
/// third-axis translation used only for draw order.
#[derive(Clone, Copy, Debug, PartialEq, Eq, Structural)]
pub struct Transform2d {
    /// The translation along the X and Y axes.
    pub translation: Vec2,
    /// The planar rotation, as a rotor.  Positive angles rotate
    /// counter-clockwise.
    pub rotation: Rot2,
    /// The scale along the X and Y axes.  Zero and negative factors are
    /// allowed; negative factors mirror.
    pub scale: Vec2,
    /// The pose's record of its translation along the third axis, which
    /// decides draw order: a higher value puts the entity in front.  The
    /// 3D-to-2D read-back stores the native Z position here; the 2D-to-3D
    /// projection never reads it on its own — a caller that manages draw
    /// order from the 2D side passes this field (or a
    /// [`ZOffset`](crate::z_offset::ZOffset)) as the projection's depth
    /// override.  The other fields never affect it because they are strictly
    /// planar.
    pub z_translation: i64,
}

impl View for Transform2d {
    type V = Transform2dModel;

    open spec fn view(&self) -> Transform2dModel {
        Transform2dModel {
            translation: self.translation@,
            rotation: self.rotation@,
            scale: self.scale@,
            z_translation: self.z_translation as int,
        }
    }
}

impl Default for Transform2d {
    /// The identity pose.
    fn default() -> (t: Transform2d)
        ensures
            t@ == Transform2dModel::identity(),
    {
        Transform2d::identity()
    }
}

impl Transform2d {
    /// The identity pose: no translation, no rotation, a scale of 1 on both
    /// axes, zero depth.
    pub fn identity() -> (t: Transform2d)
        ensures
            t@ == Transform2dModel::identity(),
    {
        Transform2d {
            translation: Vec2::zero(),
            rotation: Rot2::identity(),
            scale: Vec2::one(),
            z_translation: 0,
        }
    }

    /// The identity pose moved to `(x, y)`.
    pub fn from_xy(x: i64, y: i64) -> (t: Transform2d)
        ensures
            t@ == (Transform2dModel {
                translation: Vec2Model { x: x as int, y: y as int },
                ..Transform2dModel::identity()
            }),
    {
        Transform2d::from_translation(Vec2::new(x, y))
    }

    /// The identity pose with `translation`.
    pub fn from_translation(translation: Vec2) -> (t: Transform2d)
        ensures
            t@ == (Transform2dModel { translation: translation@, ..Transform2dModel::identity() }),
    {
        let mut t = Transform2d::identity();
        t.translation = translation;
        t
    }

    /// The identity pose with `rotation`.
    pub fn from_rotation(rotation: Rot2) -> (t: Transform2d)
        ensures
            t@ == (Transform2dModel { rotation: rotation@, ..Transform2dModel::identity() }),
    {
        let mut t = Transform2d::identity();
        t.rotation = rotation;
        t
    }

    /// The identity pose with `scale`, which may be an explicit vector or a
    /// uniform factor applied to both axes.
    pub fn from_scale<S: IntoScale>(scale: S) -> (t: Transform2d)
        ensures
            t@ == (Transform2dModel { scale: scale.scale_spec(), ..Transform2dModel::identity() }),
    {
        let mut t = Transform2d::identity();
        t.scale = scale.into_scale();
        t
    }

    /// This pose with a new translation.
    #[must_use]
    pub fn with_translation(self, translation: Vec2) -> (t: Transform2d)
        ensures
            t@ == (Transform2dModel { translation: translation@, ..self@ }),
    {
        Transform2d { translation, ..self }
    }

    /// This pose with a new rotation.
    #[must_use]
    pub fn with_rotation(self, rotation: Rot2) -> (t: Transform2d)
        ensures
            t@ == (Transform2dModel { rotation: rotation@, ..self@ }),
    {
        Transform2d { rotation, ..self }
    }

    /// This pose with a new scale, explicit or uniform.
    #[must_use]
    pub fn with_scale<S: IntoScale>(self, scale: S) -> (t: Transform2d)
        ensures
            t@ == (Transform2dModel { scale: scale.scale_spec(), ..self@ }),
    {
        Transform2d { scale: scale.into_scale(), ..self }
    }

    /// This pose with a new third-axis translation.
    #[must_use]
    pub fn with_z_translation(self, z_translation: i64) -> (t: Transform2d)
        ensures
            t@ == (Transform2dModel { z_translation: z_translation as int, ..self@ }),
    {
        Transform2d { z_translation, ..self }
    }

    /// The direction of the local X axis: the rotation applied to `(1, 0)`,
    /// which is exactly the first column of the rotation matrix.
    pub fn local_x(&self) -> (v: Vec2)
        ensures
            v@ == self@.rotation.apply(Vec2Model::unit_x()),
            v@ == Mat2Model::from_rotor(self@.rotation).mul_vec2(Vec2Model::unit_x()),
    {
        Vec2 { x: self.rotation.cos, y: self.rotation.sin }
    }

    /// Equivalent to the negated [`Self::local_x`].
    pub fn left(&self) -> (v: Vec2)
        requires
            self.rotation.cos != i64::MIN,
            self.rotation.sin != i64::MIN,
        ensures
            v@ == self@.rotation.apply(Vec2Model::unit_x()).neg(),
    {
        Vec2 { x: -self.rotation.cos, y: -self.rotation.sin }
    }

    /// Equivalent to [`Self::local_x`].
    pub fn right(&self) -> (v: Vec2)
        ensures
            v@ == self@.rotation.apply(Vec2Model::unit_x()),
            v@ == Mat2Model::from_rotor(self@.rotation).mul_vec2(Vec2Model::unit_x()),
    {
        self.local_x()
    }

    /// The direction of the local Y axis: the rotation applied to `(0, 1)`,
    /// which is exactly the second column of the rotation matrix.
    pub fn local_y(&self) -> (v: Vec2)
        requires
            self.rotation.sin != i64::MIN,
        ensures
            v@ == self@.rotation.apply(Vec2Model::unit_y()),
            v@ == Mat2Model::from_rotor(self@.rotation).mul_vec2(Vec2Model::unit_y()),
    {
        Vec2 { x: -self.rotation.sin, y: self.rotation.cos }
    }

    /// Equivalent to [`Self::local_y`].
    pub fn up(&self) -> (v: Vec2)
        requires
            self.rotation.sin != i64::MIN,
        ensures
            v@ == self@.rotation.apply(Vec2Model::unit_y()),
            v@ == Mat2Model::from_rotor(self@.rotation).mul_vec2(Vec2Model::unit_y()),
    {
        self.local_y()
    }

    /// Equivalent to the negated [`Self::local_y`].
    pub fn down(&self) -> (v: Vec2)
        requires
            self.rotation.cos != i64::MIN,
            self.rotation.sin != i64::MIN,
        ensures
            v@ == self@.rotation.apply(Vec2Model::unit_y()).neg(),
    {
        Vec2 { x: self.rotation.sin, y: -self.rotation.cos }
    }

    /// The rotation matrix of this pose's rotation.
    pub fn rotation_matrix(&self) -> (m: Mat2)
        requires
            self.rotation.sin != i64::MIN,
        ensures
            m@ == Mat2Model::from_rotor(self@.rotation),
    {
        Mat2::from_rotor(&self.rotation)
    }

    /// The homogeneous affine matrix of this pose: scale, then rotate, then
    /// translate.  The order matters; it is the one parent transforms expect.
    pub fn matrix(&self) -> (m: Mat3)
        requires
            self@.rotation.bounded(),
            self@.scale.bounded(),
        ensures
            m@ == Mat3Model::from_scale_rotor_translation(self@.scale, self@.rotation, self@.translation),
    {
        proof {
            lemma_mul_coord_bound(self@.rotation.cos, self@.scale.x);
            lemma_mul_coord_bound(self@.rotation.sin, self@.scale.x);
            lemma_mul_coord_bound(-self@.rotation.sin, self@.scale.y);
            lemma_mul_coord_bound(self@.rotation.cos, self@.scale.y);
        }
        Mat3 {
            x_axis: Vec3 {
                x: self.rotation.cos * self.scale.x,
                y: self.rotation.sin * self.scale.x,
                z: 0,
            },
            y_axis: Vec3 {
                x: (-self.rotation.sin) * self.scale.y,
                y: self.rotation.cos * self.scale.y,
                z: 0,
            },
            z_axis: Vec3 { x: self.translation.x, y: self.translation.y, z: 1 },
        }
    }

    /// The affine transform of this pose: scale, then rotate, then translate.
    ///
    /// The linear entries are products of rotation and scale components;
    /// to apply the result with [`Affine2::transform_point2`] they must
    /// themselves lie within [`MAX_COORD`].
    pub fn affine(&self) -> (a: Affine2)
        requires
            self@.rotation.bounded(),
            self@.scale.bounded(),
        ensures
            a@ == Affine2Model::from_scale_rotor_translation(self@.scale, self@.rotation, self@.translation),
    {
        proof {
            lemma_mul_coord_bound(self@.rotation.cos, self@.scale.x);
            lemma_mul_coord_bound(self@.rotation.sin, self@.scale.x);
            lemma_mul_coord_bound(-self@.rotation.sin, self@.scale.y);
            lemma_mul_coord_bound(self@.rotation.cos, self@.scale.y);
        }
        Affine2 {
            matrix2: Mat2 {
                x_axis: Vec2 {
                    x: self.rotation.cos * self.scale.x,
                    y: self.rotation.sin * self.scale.x,
                },
                y_axis: Vec2 {
                    x: (-self.rotation.sin) * self.scale.y,
                    y: self.rotation.cos * self.scale.y,
                },
            },
            translation: self.translation,
        }
    }

    /// Orbit this pose's translation about `point` by the rotor `rotor`,
    /// leaving the rotation alone.
    pub fn translate_around(&mut self, point: Vec2, rotor: &Rot2)
        requires
            old(self)@.translation.bounded(),
            point@.bounded(),
            rotor@.bounded(),
        ensures
            final(self)@ == old(self)@.translate_around(point@, rotor@),
    {
        let dx = self.translation.x - point.x;
        let dy = self.translation.y - point.y;
        proof {
            lemma_mul_abs_bound(rotor@.cos, MAX_COORD as int, dx as int, 2 * (MAX_COORD as int));
            lemma_mul_abs_bound(rotor@.sin, MAX_COORD as int, dy as int, 2 * (MAX_COORD as int));
            lemma_mul_abs_bound(rotor@.sin, MAX_COORD as int, dx as int, 2 * (MAX_COORD as int));
            lemma_mul_abs_bound(rotor@.cos, MAX_COORD as int, dy as int, 2 * (MAX_COORD as int));
        }
        let rx = rotor.cos * dx - rotor.sin * dy;
        let ry = rotor.sin * dx + rotor.cos * dy;
        self.translation = Vec2 { x: point.x + rx, y: point.y + ry };
    }

    /// Orbit this pose about `point` by the rotor `rotor` and also spin it by
    /// the same rotor, so it keeps facing the orbited point the same way.
    pub fn rotate_around(&mut self, point: Vec2, rotor: &Rot2)
        requires
            old(self)@.translation.bounded(),
            old(self)@.rotation.bounded(),
            point@.bounded(),
            rotor@.bounded(),
        ensures
            final(self)@ == old(self)@.rotate_around(point@, rotor@),
    {
        self.translate_around(point, rotor);
        let rotation = self.rotation.compose(rotor);
        self.rotation = rotation;
    }
}

/// A value that can serve as a scale: an explicit vector, or a uniform
/// factor applied to both axes.
pub trait IntoScale: Sized {
    /// The scale vector this value denotes.
    spec fn scale_spec(&self) -> Vec2Model;

    /// Convert into an explicit scale vector.
    fn into_scale(self) -> (v: Vec2)
        ensures
            v@ == self.scale_spec(),
    ;
}

impl IntoScale for Vec2 {
    open spec fn scale_spec(&self) -> Vec2Model {
        self@
    }

    fn into_scale(self) -> (v: Vec2) {
        self
    }
}

impl IntoScale for i64 {
    open spec fn scale_spec(&self) -> Vec2Model {
        Vec2Model { x: *self as int, y: *self as int }
    }

    fn into_scale(self) -> (v: Vec2) {
        Vec2 { x: self, y: self }
    }
}

/// The rotation matrix of a rotor acts on every vector exactly as the rotor
/// does; in particular the local axis directions are the matrix applied to
/// the unit axes.
pub proof fn lemma_rotation_matrix_action(r: Rot2Model, v: Vec2Model)
    ensures
        Mat2Model::from_rotor(r).mul_vec2(v) == r.apply(v),
{
    assert((-r.sin) * v.y == -(r.sin * v.y)) by (nonlinear_arith);
}

/// Orbiting about any point by the zero angle moves nothing.
pub proof fn lemma_translate_around_identity(t: Transform2dModel, point: Vec2Model)
    ensures
        t.translate_around(point, Rot2Model::identity()) == t,
{
    lemma_apply_identity(t.translation.sub(point));
    assert(point.add(t.translation.sub(point)) == t.translation);
}

/// Orbiting and spinning about a point by a unit rotor and then by its
/// inverse returns the translation and the rotation to exactly their
/// original values.
pub proof fn lemma_rotate_around_inverse(t: Transform2dModel, point: Vec2Model, r: Rot2Model)
    requires
        r.is_unit(),
    ensures
        t.rotate_around(point, r).rotate_around(point, r.inverse()) == t,
{
    let d = t.translation.sub(point);
    let orbited = point.add(r.apply(d));
    assert(orbited.sub(point) == r.apply(d));
    lemma_apply_compose(r.inverse(), r, d);
    lemma_compose_inverse(r);
    lemma_apply_identity(d);
    assert(point.add(d) == t.translation);
    lemma_compose_assoc(t.rotation, r, r.inverse());
    lemma_compose_identity(t.rotation);
}

/// Orbiting and spinning keeps the rotation a pure rotation: if the pose's
/// rotor and the applied rotor are unit, so is the rotor afterwards, so the
/// pose can keep being orbited, projected and round-tripped exactly.
pub proof fn lemma_rotate_around_keeps_unit(t: Transform2dModel, point: Vec2Model, r: Rot2Model)
    requires
        t.rotation.is_unit(),
        r.is_unit(),
    ensures
        t.rotate_around(point, r).rotation.is_unit(),
{
    lemma_compose_unit(t.rotation, r);
}

} // verus!

//! Exact matrices: rotation matrices and affine transforms of the plane.

use vstd::prelude::*;

use crate::rot2::Rot2;
use crate::rot2::Rot2Model;
use crate::vec2::lemma_mul_coord_bound;
use crate::vec2::Vec2;
use crate::vec2::Vec2Model;
use crate::vec3::Vec3;
use crate::vec3::Vec3Model;

verus! {

/// Mathematical value of a [`Mat2`]: two unbounded column vectors.
pub struct Mat2Model {
    pub x_axis: Vec2Model,
    pub y_axis: Vec2Model,
}

impl Mat2Model {
    /// All entries lie within [`MAX_COORD`].
    pub open spec fn bounded(self) -> bool {
        self.x_axis.bounded() && self.y_axis.bounded()
    }

    /// The rotation matrix of a rotor: columns `(cos, sin)` and `(-sin, cos)`.
    pub open spec fn from_rotor(r: Rot2Model) -> Mat2Model {
        Mat2Model {
            x_axis: Vec2Model { x: r.cos, y: r.sin },
            y_axis: Vec2Model { x: -r.sin, y: r.cos },
        }
    }

    /// The linear part of a scale-then-rotate transform: each column is the
    /// rotation matrix's column scaled by that axis's factor.
    pub open spec fn from_scale_rotor(scale: Vec2Model, r: Rot2Model) -> Mat2Model {
        Mat2Model {
            x_axis: Vec2Model { x: r.cos * scale.x, y: r.sin * scale.x },
            y_axis: Vec2Model { x: -r.sin * scale.y, y: r.cos * scale.y },
        }
    }

    /// Matrix-vector product: `v.x` times the first column plus `v.y` times
    /// the second.
    pub open spec fn mul_vec2(self, v: Vec2Model) -> Vec2Model {
        Vec2Model {
            x: self.x_axis.x * v.x + self.y_axis.x * v.y,
            y: self.x_axis.y * v.x + self.y_axis.y * v.y,
        }
    }
}

/// A 2x2 matrix with exact integer entries, stored as two columns.
#[derive(Clone, Copy, Debug, PartialEq, Eq, Structural)]
pub struct Mat2 {
    pub x_axis: Vec2,
    pub y_axis: Vec2,
}

impl View for Mat2 {
    type V = Mat2Model;

    open spec fn view(&self) -> Mat2Model {
        Mat2Model { x_axis: self.x_axis@, y_axis: self.y_axis@ }
    }
}

impl Mat2 {
    /// The rotation matrix of a rotor.
    pub fn from_rotor(r: &Rot2) -> (m: Mat2)
        requires
            r.sin != i64::MIN,
        ensures
            m@ == Mat2Model::from_rotor(r@),
    {
        Mat2 {
            x_axis: Vec2 { x: r.cos, y: r.sin },
            y_axis: Vec2 { x: -r.sin, y: r.cos },
        }
    }

    /// Apply this matrix to a vector.
    pub fn mul_vec2(&self, v: Vec2) -> (r: Vec2)
        requires
            self@.bounded(),
            v@.bounded(),
        ensures
            r@ == self@.mul_vec2(v@),
    {
        proof {
            lemma_mul_coord_bound(self@.x_axis.x, v@.x);
            lemma_mul_coord_bound(self@.y_axis.x, v@.y);
            lemma_mul_coord_bound(self@.x_axis.y, v@.x);
            lemma_mul_coord_bound(self@.y_axis.y, v@.y);
        }
        Vec2 {
            x: self.x_axis.x * v.x + self.y_axis.x * v.y,
            y: self.x_axis.y * v.x + self.y_axis.y * v.y,
        }
    }
}

/// Mathematical value of a [`Mat3`]: three unbounded column vectors.
pub struct Mat3Model {
    pub x_axis: Vec3Model,
    pub y_axis: Vec3Model,
    pub z_axis: Vec3Model,
}

impl Mat3Model {
    /// The homogeneous matrix of a scale-then-rotate-then-translate
    /// transform of the plane: the linear columns are extended with 0 and the
    /// translation sits in the third column over a 1.
    pub open spec fn from_scale_rotor_translation(
        scale: Vec2Model,
        r: Rot2Model,
        translation: Vec2Model,
    ) -> Mat3Model {
        Mat3Model {
            x_axis: Vec3Model { x: r.cos * scale.x, y: r.sin * scale.x, z: 0 },
            y_axis: Vec3Model { x: -r.sin * scale.y, y: r.cos * scale.y, z: 0 },
            z_axis: Vec3Model { x: translation.x, y: translation.y, z: 1 },
        }
    }
}

/// A 3x3 matrix with exact integer entries, stored as three columns: the
/// homogeneous form of a planar affine transform.
#[derive(Clone, Copy, Debug, PartialEq, Eq, Structural)]
pub struct Mat3 {
    pub x_axis: Vec3,
    pub y_axis: Vec3,
    pub z_axis: Vec3,
}

impl View for Mat3 {
    type V = Mat3Model;

    open spec fn view(&self) -> Mat3Model {
        Mat3Model { x_axis: self.x_axis@, y_axis: self.y_axis@, z_axis: self.z_axis@ }
    }
}

/// Mathematical value of an [`Affine2`].
pub struct Affine2Model {
    pub matrix2: Mat2Model,
    pub translation: Vec2Model,
}

impl Affine2Model {
    /// A scale-then-rotate-then-translate transform of the plane.
    pub open spec fn from_scale_rotor_translation(
        scale: Vec2Model,
        r: Rot2Model,
        translation: Vec2Model,
    ) -> Affine2Model {
        Affine2Model { matrix2: Mat2Model::from_scale_rotor(scale, r), translation }
    }

    /// Apply the transform to a point: the linear part, then the translation.
    pub open spec fn transform_point2(self, p: Vec2Model) -> Vec2Model {
        self.matrix2.mul_vec2(p).add(self.translation)
    }
}

/// A planar affine transform: a linear part and a translation.
#[derive(Clone, Copy, Debug, PartialEq, Eq, Structural)]
pub struct Affine2 {
    pub matrix2: Mat2,
    pub translation: Vec2,
}

impl View for Affine2 {
    type V = Affine2Model;

    open spec fn view(&self) -> Affine2Model {
        Affine2Model { matrix2: self.matrix2@, translation: self.translation@ }
    }
}

impl Affine2 {
    /// Apply the transform to a point: the linear part, then the translation.
    pub fn transform_point2(&self, p: Vec2) -> (r: Vec2)
        requires
            self@.matrix2.bounded(),
            self@.translation.bounded(),
            p@.bounded(),
        ensures
            r@ == self@.transform_point2(p@),
    {
        let linear = self.matrix2.mul_vec2(p);
        proof {
            lemma_mul_coord_bound(self@.matrix2.x_axis.x, p@.x);
            lemma_mul_coord_bound(self@.matrix2.y_axis.x, p@.y);
            lemma_mul_coord_bound(self@.matrix2.x_axis.y, p@.x);
            lemma_mul_coord_bound(self@.matrix2.y_axis.y, p@.y);
        }
        Vec2 { x: linear.x + self.translation.x, y: linear.y + self.translation.y }
    }
}

} // verus!

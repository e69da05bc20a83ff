//! Exact 3D vectors: the carrier for native translations and scales.

use vstd::prelude::*;

use crate::vec2::MAX_COORD;
use crate::vec2::Vec2;
use crate::vec2::Vec2Model;

verus! {

/// Mathematical value of a [`Vec3`]: a triple of unbounded integers.
pub struct Vec3Model {
    pub x: int,
    pub y: int,
    pub z: int,
}

impl Vec3Model {
    /// All coordinates lie within [`MAX_COORD`].
    pub open spec fn bounded(self) -> bool {
        &&& -MAX_COORD <= self.x <= MAX_COORD
        &&& -MAX_COORD <= self.y <= MAX_COORD
        &&& -MAX_COORD <= self.z <= MAX_COORD
    }

    pub open spec fn zero() -> Vec3Model {
        Vec3Model { x: 0, y: 0, z: 0 }
    }

    pub open spec fn one() -> Vec3Model {
        Vec3Model { x: 1, y: 1, z: 1 }
    }

    /// The first two coordinates, with the third dropped.
    pub open spec fn truncate(self) -> Vec2Model {
        Vec2Model { x: self.x, y: self.y }
    }
}

/// A 3D vector with exact integer coordinates.
#[derive(Clone, Copy, Debug, PartialEq, Eq, Structural)]
pub struct Vec3 {
    pub x: i64,
    pub y: i64,
    pub z: i64,
}

impl View for Vec3 {
    type V = Vec3Model;

    open spec fn view(&self) -> Vec3Model {
        Vec3Model { x: self.x as int, y: self.y as int, z: self.z as int }
    }
}

impl Vec3 {
    pub fn new(x: i64, y: i64, z: i64) -> (v: Vec3)
        ensures
            v@ == (Vec3Model { x: x as int, y: y as int, z: z as int }),
    {
        Vec3 { x, y, z }
    }

    /// The origin, `(0, 0, 0)`.
    pub fn zero() -> (v: Vec3)
        ensures
            v@ == Vec3Model::zero(),
    {
        Vec3 { x: 0, y: 0, z: 0 }
    }

    /// The all-ones vector, `(1, 1, 1)`: the identity scale.
    pub fn one() -> (v: Vec3)
        ensures
            v@ == Vec3Model::one(),
    {
        Vec3 { x: 1, y: 1, z: 1 }
    }

    /// The first two coordinates, with the third dropped.
    pub fn truncate(self) -> (v: Vec2)
        ensures
            v@ == self@.truncate(),
    {
        Vec2 { x: self.x, y: self.y }
    }
}

/// Extend a 2D vector with a third coordinate.
pub fn extend(v: Vec2, z: i64) -> (r: Vec3)
    ensures
        r@ == (Vec3Model { x: v@.x, y: v@.y, z: z as int }),
{
    Vec3 { x: v.x, y: v.y, z }
}

} // verus!

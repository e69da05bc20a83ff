//! Exact 2D vectors: the carrier for translations, scales and directions.

use vstd::prelude::*;

verus! {

/// Bound on coordinates that take part in products.
///
/// Whenever a function multiplies coordinates (applying a rotor, building a
/// matrix, projecting a pose) it requires its inputs to lie within this bound,
/// which keeps every intermediate 64-bit computation exact: a product of two
/// bounded values is at most `10^18`, and the sums formed from such products
/// stay well below `i64::MAX`.
pub const MAX_COORD: i64 = 1_000_000_000;

/// Mathematical value of a [`Vec2`]: a pair of unbounded integers.
pub struct Vec2Model {
    pub x: int,
    pub y: int,
}

impl Vec2Model {
    /// Both coordinates lie within [`MAX_COORD`], so products of them are exact in 64 bits.
    pub open spec fn bounded(self) -> bool {
        &&& -MAX_COORD <= self.x <= MAX_COORD
        &&& -MAX_COORD <= self.y <= MAX_COORD
    }

    pub open spec fn zero() -> Vec2Model {
        Vec2Model { x: 0, y: 0 }
    }

    pub open spec fn one() -> Vec2Model {
        Vec2Model { x: 1, y: 1 }
    }

    pub open spec fn add(self, other: Vec2Model) -> Vec2Model {
        Vec2Model { x: self.x + other.x, y: self.y + other.y }
    }

    pub open spec fn sub(self, other: Vec2Model) -> Vec2Model {
        Vec2Model { x: self.x - other.x, y: self.y - other.y }
    }

    pub open spec fn neg(self) -> Vec2Model {
        Vec2Model { x: -self.x, y: -self.y }
    }

    /// The positive X axis, `(1, 0)`.
    pub open spec fn unit_x() -> Vec2Model {
        Vec2Model { x: 1, y: 0 }
    }

    /// The positive Y axis, `(0, 1)`.
    pub open spec fn unit_y() -> Vec2Model {
        Vec2Model { x: 0, y: 1 }
    }
}

/// A product of two coordinates within [`MAX_COORD`] stays within `10^18`,
/// far inside the 64-bit range, so sums of a few such products are exact.
pub proof fn lemma_mul_coord_bound(a: int, b: int)
    requires
        -MAX_COORD <= a <= MAX_COORD,
        -MAX_COORD <= b <= MAX_COORD,
    ensures
        -(MAX_COORD * MAX_COORD) <= a * b <= MAX_COORD * MAX_COORD,
{
    lemma_mul_abs_bound(a, MAX_COORD as int, b, MAX_COORD as int);
}

/// A product of values bounded in magnitude is bounded by the product of the
/// bounds.
pub proof fn lemma_mul_abs_bound(a: int, am: int, b: int, bm: int)
    requires
        -am <= a <= am,
        -bm <= b <= bm,
    ensures
        -(am * bm) <= a * b <= am * bm,
{
    assert(-(am * bm) <= a * b <= am * bm) by (nonlinear_arith)
        requires
            -am <= a <= am,
            -bm <= b <= bm,
    ;
}

/// A 2D vector with exact integer coordinates.
#[derive(Clone, Copy, Debug, PartialEq, Eq, Structural)]
pub struct Vec2 {
    pub x: i64,
    pub y: i64,
}

impl View for Vec2 {
    type V = Vec2Model;

    open spec fn view(&self) -> Vec2Model {
        Vec2Model { x: self.x as int, y: self.y as int }
    }
}

impl Vec2 {
    pub fn new(x: i64, y: i64) -> (v: Vec2)
        ensures
            v@ == (Vec2Model { x: x as int, y: y as int }),
    {
        Vec2 { x, y }
    }

    /// The origin, `(0, 0)`.
    pub fn zero() -> (v: Vec2)
        ensures
            v@ == Vec2Model::zero(),
    {
        Vec2 { x: 0, y: 0 }
    }

    /// The all-ones vector, `(1, 1)`: the identity scale.
    pub fn one() -> (v: Vec2)
        ensures
            v@ == Vec2Model::one(),
    {
        Vec2 { x: 1, y: 1 }
    }

    /// Both coordinates set to `v`.
    pub fn splat(v: i64) -> (r: Vec2)
        ensures
            r@ == (Vec2Model { x: v as int, y: v as int }),
    {
        Vec2 { x: v, y: v }
    }

    pub fn add(self, other: Vec2) -> (r: Vec2)
        requires
            i64::MIN <= self@.x + other@.x <= i64::MAX,
            i64::MIN <= self@.y + other@.y <= i64::MAX,
        ensures
            r@ == self@.add(other@),
    {
        Vec2 { x: self.x + other.x, y: self.y + other.y }
    }

    pub fn sub(self, other: Vec2) -> (r: Vec2)
        requires
            i64::MIN <= self@.x - other@.x <= i64::MAX,
            i64::MIN <= self@.y - other@.y <= i64::MAX,
        ensures
            r@ == self@.sub(other@),
    {
        Vec2 { x: self.x - other.x, y: self.y - other.y }
    }

    pub fn neg(self) -> (r: Vec2)
        requires
            self.x != i64::MIN,
            self.y != i64::MIN,
        ensures
            r@ == self@.neg(),
    {
        Vec2 { x: -self.x, y: -self.y }
    }
}

} // verus!

//! Exact planar rotations, carried as rotors (cosine/sine pairs).
//!
//! A rotation by an angle theta is represented by the pair
//! `(cos theta, sin theta)`.  Composing two rotations multiplies their rotors,
//! which adds the angles; the inverse rotation is the conjugate rotor.  A
//! rotor whose squared length is 1 (a *unit* rotor) acts on vectors as a pure
//! rotation.  A rotor scaled by a positive factor points in the same
//! direction, and [`Rot2Model::same_direction`] is exactly that equivalence:
//! equality of angles modulo a full turn, with no square roots needed.

use vstd::prelude::*;

use crate::vec2::lemma_mul_coord_bound;
use crate::vec2::MAX_COORD;
use crate::vec2::Vec2;
use crate::vec2::Vec2Model;

verus! {

/// Mathematical value of a [`Rot2`]: an unbounded cosine/sine pair.
pub struct Rot2Model {
    pub cos: int,
    pub sin: int,
}

impl Rot2Model {
    /// Both components lie within [`MAX_COORD`].
    pub open spec fn bounded(self) -> bool {
        &&& -MAX_COORD <= self.cos <= MAX_COORD
        &&& -MAX_COORD <= self.sin <= MAX_COORD
    }

    /// The rotor of the zero angle.
    pub open spec fn identity() -> Rot2Model {
        Rot2Model { cos: 1, sin: 0 }
    }

    /// The rotor lies on the unit circle, so applying it preserves lengths.
    pub open spec fn is_unit(self) -> bool {
        self.cos * self.cos + self.sin * self.sin == 1
    }

    /// Rotate `v` counter-clockwise by this rotor's angle.
    pub open spec fn apply(self, v: Vec2Model) -> Vec2Model {
        Vec2Model {
            x: self.cos * v.x - self.sin * v.y,
            y: self.sin * v.x + self.cos * v.y,
        }
    }

    /// The rotor of the sum of the two angles.
    pub open spec fn compose(self, other: Rot2Model) -> Rot2Model {
        Rot2Model {
            cos: self.cos * other.cos - self.sin * other.sin,
            sin: self.sin * other.cos + self.cos * other.sin,
        }
    }

    /// The rotor of the negated angle: the conjugate.
    pub open spec fn inverse(self) -> Rot2Model {
        Rot2Model { cos: self.cos, sin: -self.sin }
    }

    /// Both rotors denote the same angle modulo a full turn: they are
    /// positive scalings of one another (parallel, and not opposed).
    pub open spec fn same_direction(self, other: Rot2Model) -> bool {
        &&& self.cos * other.sin == self.sin * other.cos
        &&& self.cos * other.cos + self.sin * other.sin > 0
    }
}

/// An exact planar rotation: the cosine and sine of its angle.
#[derive(Clone, Copy, Debug, PartialEq, Eq, Structural)]
pub struct Rot2 {
    pub cos: i64,
    pub sin: i64,
}

impl View for Rot2 {
    type V = Rot2Model;

    open spec fn view(&self) -> Rot2Model {
        Rot2Model { cos: self.cos as int, sin: self.sin as int }
    }
}

impl Rot2 {
    pub fn new(cos: i64, sin: i64) -> (r: Rot2)
        ensures
            r@ == (Rot2Model { cos: cos as int, sin: sin as int }),
    {
        Rot2 { cos, sin }
    }

    /// The rotation by nothing.
    pub fn identity() -> (r: Rot2)
        ensures
            r@ == Rot2Model::identity(),
            r@.is_unit(),
    {
        Rot2 { cos: 1, sin: 0 }
    }

    /// Rotate `v` counter-clockwise by this rotation's angle.
    pub fn apply(&self, v: Vec2) -> (r: Vec2)
        requires
            self@.bounded(),
            v@.bounded(),
        ensures
            r@ == self@.apply(v@),
    {
        proof {
            lemma_mul_coord_bound(self@.cos, v@.x);
            lemma_mul_coord_bound(self@.sin, v@.y);
            lemma_mul_coord_bound(self@.sin, v@.x);
            lemma_mul_coord_bound(self@.cos, v@.y);
        }
        Vec2 { x: self.cos * v.x - self.sin * v.y, y: self.sin * v.x + self.cos * v.y }
    }

    /// The rotation by the sum of the two angles.
    pub fn compose(&self, other: &Rot2) -> (r: Rot2)
        requires
            self@.bounded(),
            other@.bounded(),
        ensures
            r@ == self@.compose(other@),
    {
        proof {
            lemma_mul_coord_bound(self@.cos, other@.cos);
            lemma_mul_coord_bound(self@.sin, other@.sin);
            lemma_mul_coord_bound(self@.sin, other@.cos);
            lemma_mul_coord_bound(self@.cos, other@.sin);
        }
        Rot2 {
            cos: self.cos * other.cos - self.sin * other.sin,
            sin: self.sin * other.cos + self.cos * other.sin,
        }
    }

    /// The rotation by the negated angle.
    pub fn inverse(&self) -> (r: Rot2)
        requires
            self.sin != i64::MIN,
        ensures
            r@ == self@.inverse(),
    {
        Rot2 { cos: self.cos, sin: -self.sin }
    }
}

/// Applying the identity rotor moves nothing.
pub proof fn lemma_apply_identity(v: Vec2Model)
    ensures
        Rot2Model::identity().apply(v) == v,
{
}

/// Rotating by `b` and then by `a` is rotating by the composite.
pub proof fn lemma_apply_compose(a: Rot2Model, b: Rot2Model, v: Vec2Model)
    ensures
        a.apply(b.apply(v)) == a.compose(b).apply(v),
{
    broadcast use vstd::arithmetic::mul::group_mul_is_commutative_and_distributive;
    broadcast use vstd::arithmetic::mul::lemma_mul_is_associative;

}

/// The identity rotor is neutral for composition.
pub proof fn lemma_compose_identity(a: Rot2Model)
    ensures
        a.compose(Rot2Model::identity()) == a,
        Rot2Model::identity().compose(a) == a,
{
}

/// Composition of rotors is associative.
pub proof fn lemma_compose_assoc(a: Rot2Model, b: Rot2Model, c: Rot2Model)
    ensures
        a.compose(b).compose(c) == a.compose(b.compose(c)),
{
    // A rotor is recovered from its action on the X axis, so it is enough
    // that both composites act identically, which regrouping the three
    // applications shows.
    let v = Vec2Model::unit_x();
    lemma_apply_compose(a.compose(b), c, v);
    lemma_apply_compose(a, b, c.apply(v));
    lemma_apply_compose(b, c, v);
    lemma_apply_compose(a, b.compose(c), v);
    assert(a.compose(b).compose(c).apply(v) == a.compose(b.compose(c)).apply(v));
    assert(a.compose(b).compose(c) == a.compose(b.compose(c)));
}

/// The composite of unit rotors is a unit rotor.
pub proof fn lemma_compose_unit(a: Rot2Model, b: Rot2Model)
    requires
        a.is_unit(),
        b.is_unit(),
    ensures
        a.compose(b).is_unit(),
{
    let c1 = a.cos;
    let s1 = a.sin;
    let c2 = b.cos;
    let s2 = b.sin;
    assert((c1 * c2 - s1 * s2) * (c1 * c2 - s1 * s2) + (s1 * c2 + c1 * s2) * (s1 * c2 + c1 * s2)
        == 1) by (nonlinear_arith)
        requires
            c1 * c1 + s1 * s1 == 1,
            c2 * c2 + s2 * s2 == 1,
    ;
}

/// A unit rotor composed with its inverse is exactly the identity rotor.
pub proof fn lemma_compose_inverse(r: Rot2Model)
    requires
        r.is_unit(),
    ensures
        r.compose(r.inverse()) == Rot2Model::identity(),
        r.inverse().compose(r) == Rot2Model::identity(),
{
    let c = r.cos;
    let s = r.sin;
    assert(c * c - s * (-s) == c * c + s * s) by (nonlinear_arith);
    assert(s * c + c * (-s) == 0) by (nonlinear_arith);
    assert(c * c - (-s) * s == c * c + s * s) by (nonlinear_arith);
    assert((-s) * c + c * s == 0) by (nonlinear_arith);
}

} // verus!

//! A verified 2D spatial model for engines whose native representation is 3D.
//!
//! Game engines commonly store every entity's pose as a full 3D transform
//! (translation, orientation quaternion, scale) even when the game itself is
//! two-dimensional.  This crate provides the 2D pose type
//! [`transform2d::Transform2d`] together with the two projections that keep
//! it in sync with a native 3D pose ([`project`]), batch synchronisation
//! passes over entity records ([`systems`]), and a declarative model of when
//! a host pipeline must run those passes ([`schedule`]).
//!
//! All coordinates are exact 64-bit integers, so every stated identity is
//! exact rather than approximate.  A rotation is carried as a
//! [`rot2::Rot2`] rotor — the cosine/sine pair of its angle — and a native
//! orientation as an integer quaternion read projectively (positive scalings
//! denote the same orientation).  A projected orientation depends only on
//! the rotor's direction whenever the rotor's squared length is a perfect
//! square — every unit rotor, and every rotor the 3D-to-2D read-back itself
//! produces — so the library's own write-then-read-back cycle keeps every
//! rotation's exact direction.  What such a model cannot carry (an angle's
//! winding count beyond a full turn) is out of scope, as is the host engine
//! itself.

pub mod bundle;
pub mod isqrt;
pub mod mat;
pub mod project;
pub mod rot2;
pub mod schedule;
pub mod systems;
pub mod transform2d;
pub mod transform3d;
pub mod vec2;
pub mod vec3;
pub mod z_index;
pub mod z_offset;

pub use schedule::Transform2dPlugin;
pub use schedule::Transform2dPropagate;
pub use transform2d::Transform2d;

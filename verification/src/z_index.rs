//! An optional per-entity render order value.

use vstd::prelude::*;

verus! {

/// An optional companion value for hosts that assign render order outright.
///
/// Where [`ZOffset`](crate::z_offset::ZOffset) is relative to the parent's
/// depth, a `ZIndex` is meant as an absolute render order.  No function of
/// this library reads it: a host that uses it passes its value as the depth
/// override of the 2D-to-3D projection itself, and when no depth is passed
/// the native Z translation is left as it was.
#[derive(Clone, Copy, Debug, PartialEq, Eq, Structural)]
pub struct ZIndex(pub i64);

impl View for ZIndex {
    type V = int;

    open spec fn view(&self) -> int {
        self.0 as int
    }
}

impl ZIndex {
    pub fn new(z: i64) -> (r: ZIndex)
        ensures
            r@ == z as int,
    {
        ZIndex(z)
    }

    pub fn get(&self) -> (z: i64)
        ensures
            z as int == self@,
    {
        self.0
    }
}

} // verus!

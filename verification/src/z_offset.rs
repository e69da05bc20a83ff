//! An optional per-entity depth override.

use vstd::prelude::*;

verus! {

/// An optional companion value that offsets an entity's position along the
/// axis orthogonal to the 2D plane.
///
/// The third axis only decides draw order: a higher value puts the entity in
/// front.  When an entity carries a `ZOffset`, the 2D-to-3D projection writes
/// this value as the native Z translation; when it does not, the native Z
/// translation is left as it was, so systems that manage depth natively are
/// not fought with.
#[derive(Clone, Copy, Debug, PartialEq, Eq, Structural)]
pub struct ZOffset(pub i64);

impl View for ZOffset {
    type V = int;

    open spec fn view(&self) -> int {
        self.0 as int
    }
}

impl ZOffset {
    pub fn new(z: i64) -> (r: ZOffset)
        ensures
            r@ == z as int,
    {
        ZOffset(z)
    }

    pub fn get(&self) -> (z: i64)
        ensures
            z as int == self@,
    {
        self.0
    }
}

} // verus!

//! Bundles: the component sets an entity is spawned with.
//!
//! A 2D pose is only meaningful next to a native 3D pose on the same entity,
//! so these group a fresh [`Transform2d`] with the native-side records the
//! host expects, all at identity until the first synchronisation pass runs.

use vstd::prelude::*;

use crate::transform2d::Transform2d;
use crate::transform2d::Transform2dModel;
use crate::transform3d::Transform3d;
use crate::transform3d::Transform3dModel;

verus! {

/// Whether an entity is shown, hidden, or follows its parent.
#[derive(Clone, Copy, Debug, PartialEq, Eq, Structural)]
pub enum Visibility {
    /// Visible exactly when the parent is.
    Inherited,
    /// Never rendered, nor are descendants.
    Hidden,
    /// Always rendered, whatever the parent does.
    Visible,
}

/// The visibility the host's visibility pass computed for an entity; hidden
/// until that pass first runs.
#[derive(Clone, Copy, Debug, PartialEq, Eq, Structural)]
pub struct ComputedVisibility {
    pub is_visible: bool,
}

/// The spatial components of a 2D entity: its 2D pose, the native 3D pose it
/// is kept in sync with, and the world-space pose the host's propagation
/// step owns.
#[derive(Clone, Copy, Debug)]
pub struct Transform2dBundle {
    pub transform: Transform2d,
    pub transform_3d: Transform3d,
    pub global_transform: Transform3d,
}

impl Transform2dBundle {
    /// Everything at identity.
    pub fn identity() -> (b: Transform2dBundle)
        ensures
            b.transform@ == Transform2dModel::identity(),
            b.transform_3d@ == Transform3dModel::identity(),
            b.global_transform@ == Transform3dModel::identity(),
    {
        Transform2dBundle {
            transform: Transform2d::identity(),
            transform_3d: Transform3d::identity(),
            global_transform: Transform3d::identity(),
        }
    }

    /// A bundle carrying `transform`, with the native records at identity
    /// until the first synchronisation pass writes them.
    pub fn from_transform(transform: Transform2d) -> (b: Transform2dBundle)
        ensures
            b.transform == transform,
            b.transform_3d@ == Transform3dModel::identity(),
            b.global_transform@ == Transform3dModel::identity(),
    {
        Transform2dBundle {
            transform,
            transform_3d: Transform3d::identity(),
            global_transform: Transform3d::identity(),
        }
    }
}

/// The spatial components of a rendered 2D entity: everything in
/// [`Transform2dBundle`] plus the visibility records renderers expect.
#[derive(Clone, Copy, Debug)]
pub struct Spatial2dBundle {
    /// The visibility of the entity.
    pub visibility: Visibility,
    /// The visibility the host computed; hidden until its first pass.
    pub computed: ComputedVisibility,
    /// The 2D pose of the entity.
    pub transform: Transform2d,
    /// The native 3D pose of the entity.
    pub transform_3d: Transform3d,
    /// The world-space pose of the entity.
    pub global_transform: Transform3d,
}

impl Spatial2dBundle {
    /// Inherited visibility and everything else at identity.
    pub fn inherited_identity() -> (b: Spatial2dBundle)
        ensures
            b.visibility == Visibility::Inherited,
            !b.computed.is_visible,
            b.transform@ == Transform2dModel::identity(),
            b.transform_3d@ == Transform3dModel::identity(),
            b.global_transform@ == Transform3dModel::identity(),
    {
        Spatial2dBundle {
            visibility: Visibility::Inherited,
            computed: ComputedVisibility { is_visible: false },
            transform: Transform2d::identity(),
            transform_3d: Transform3d::identity(),
            global_transform: Transform3d::identity(),
        }
    }

    /// A visible bundle carrying `transform`, with the native records at
    /// identity until the first synchronisation pass writes them.
    pub fn from_transform(transform: Transform2d) -> (b: Spatial2dBundle)
        ensures
            b.visibility == Visibility::Inherited,
            !b.computed.is_visible,
            b.transform == transform,
            b.transform_3d@ == Transform3dModel::identity(),
            b.global_transform@ == Transform3dModel::identity(),
    {
        Spatial2dBundle { transform, ..Spatial2dBundle::inherited_identity() }
    }
}

} // verus!

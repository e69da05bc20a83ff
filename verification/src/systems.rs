//! The two per-frame synchronisation passes, as batch functions.
//!
//! A host engine runs each pass over every entity that carries both a 2D
//! pose and a native 3D pose, filtered to the entities whose source side
//! changed since the pass last looked.  Here a batch is a vector of
//! [`SpatialRecord`]s, each carrying the two poses, the optional depth
//! override, and the change marks the host's change tracking would supply.
//!
//! Writing one side marks it changed, exactly as a host's change tracking
//! would.  That is the same-frame hazard the scheduling in
//! [`crate::schedule`] exists to avoid: if both passes ran in one update
//! pass, the first pass's writes would satisfy the second pass's filter.
//! The contracts below make the hazard visible: each pass touches only its
//! target side and marks it changed.

use vstd::prelude::*;

use crate::project::depth_view;
use crate::project::project_to_2d;
use crate::project::project_to_2d_model;
use crate::project::project_to_3d;
use crate::project::project_to_3d_model;
use crate::transform2d::Transform2d;
use crate::transform2d::Transform2dModel;
use crate::transform3d::Transform3d;
use crate::transform3d::Transform3dModel;
use crate::z_offset::ZOffset;

verus! {

/// Mathematical value of a [`SpatialRecord`].
pub struct SpatialRecordModel {
    pub transform_2d: Transform2dModel,
    pub z_offset: Option<int>,
    pub transform_3d: Transform3dModel,
    pub changed_2d: bool,
    pub changed_3d: bool,
}

/// One entity's spatial data, as a synchronisation pass sees it: both poses,
/// the optional depth override, and the host's change marks for either side.
#[derive(Clone, Copy, Debug)]
pub struct SpatialRecord {
    /// The entity's 2D pose.
    pub transform_2d: Transform2d,
    /// The optional depth override; when absent the native Z position is
    /// left alone.
    pub z_offset: Option<ZOffset>,
    /// The entity's native 3D pose.
    pub transform_3d: Transform3d,
    /// Whether the 2D pose was written since the 2D-to-3D pass last ran.
    pub changed_2d: bool,
    /// Whether the native pose was written since the 3D-to-2D pass last ran.
    pub changed_3d: bool,
}

impl View for SpatialRecord {
    type V = SpatialRecordModel;

    open spec fn view(&self) -> SpatialRecordModel {
        SpatialRecordModel {
            transform_2d: self.transform_2d@,
            z_offset: match self.z_offset {
                Some(z) => Some(z@),
                None => None,
            },
            transform_3d: self.transform_3d@,
            changed_2d: self.changed_2d,
            changed_3d: self.changed_3d,
        }
    }
}

/// What the 2D-to-3D pass does to one record: if the 2D side changed (or the
/// pass is forced, as on the first frame after startup), the native pose is
/// replaced by the projection of the 2D pose and the native side is marked
/// changed; otherwise the record is untouched.
pub open spec fn sync_2d_to_3d_record(r: SpatialRecordModel, force: bool) -> SpatialRecordModel {
    if r.changed_2d || force {
        SpatialRecordModel {
            transform_3d: project_to_3d_model(r.transform_2d, r.z_offset, r.transform_3d),
            changed_3d: true,
            ..r
        }
    } else {
        r
    }
}

/// What the 3D-to-2D pass does to one record: if the native side changed
/// (typically because a physics step wrote it), the 2D pose is replaced by
/// the projection of the native pose and the 2D side is marked changed;
/// otherwise the record is untouched.
pub open spec fn sync_3d_to_2d_record(r: SpatialRecordModel) -> SpatialRecordModel {
    if r.changed_3d {
        SpatialRecordModel {
            transform_2d: project_to_2d_model(r.transform_3d),
            changed_2d: true,
            ..r
        }
    } else {
        r
    }
}

/// Write every changed 2D pose into its native 3D pose.
///
/// `force` projects every record regardless of its change mark: the host
/// runs the pass that way once right after startup, so the native poses are
/// correct before the very first propagation even for entities nothing has
/// touched yet.
pub fn sync_transform_2d_to_3d(records: &mut Vec<SpatialRecord>, force: bool)
    requires
        forall|j: int|
            0 <= j < old(records)@.len() ==> old(records)@[j]@.transform_2d.rotation.bounded(),
    ensures
        final(records)@.len() == old(records)@.len(),
        forall|j: int|
            0 <= j < old(records)@.len() ==> final(records)@[j]@ == sync_2d_to_3d_record(
                old(records)@[j]@,
                force,
            ),
{
    let n = records.len();
    let mut out: Vec<SpatialRecord> = Vec::new();
    let mut i: usize = 0;
    while i < n
        invariant
            records@ == old(records)@,
            n == records@.len(),
            0 <= i <= n,
            out@.len() == i as int,
            forall|j: int|
                0 <= j < records@.len() ==> records@[j]@.transform_2d.rotation.bounded(),
            forall|j: int|
                0 <= j < i ==> out@[j]@ == sync_2d_to_3d_record(records@[j]@, force),
        decreases n - i,
    {
        let r = records[i];
        let updated = if r.changed_2d || force {
            let depth = match r.z_offset {
                Some(z) => Some(z.0),
                None => None,
            };
            proof {
                assert(depth_view(depth) == r@.z_offset);
            }
            let t3 = project_to_3d(&r.transform_2d, depth, &r.transform_3d);
            SpatialRecord { transform_3d: t3, changed_3d: true, ..r }
        } else {
            r
        };
        out.push(updated);
        i = i + 1;
    }
    *records = out;
}

/// Read every changed native 3D pose back into its 2D pose.
pub fn sync_transform_3d_to_2d(records: &mut Vec<SpatialRecord>)
    requires
        forall|j: int|
            0 <= j < old(records)@.len() ==> old(records)@[j]@.transform_3d.rotation.bounded(),
    ensures
        final(records)@.len() == old(records)@.len(),
        forall|j: int|
            0 <= j < old(records)@.len() ==> final(records)@[j]@ == sync_3d_to_2d_record(
                old(records)@[j]@,
            ),
{
    let n = records.len();
    let mut out: Vec<SpatialRecord> = Vec::new();
    let mut i: usize = 0;
    while i < n
        invariant
            records@ == old(records)@,
            n == records@.len(),
            0 <= i <= n,
            out@.len() == i as int,
            forall|j: int|
                0 <= j < records@.len() ==> records@[j]@.transform_3d.rotation.bounded(),
            forall|j: int| 0 <= j < i ==> out@[j]@ == sync_3d_to_2d_record(records@[j]@),
        decreases n - i,
    {
        let r = records[i];
        let updated = if r.changed_3d {
            let t2 = project_to_2d(&r.transform_3d);
            SpatialRecord { transform_2d: t2, changed_2d: true, ..r }
        } else {
            r
        };
        out.push(updated);
        i = i + 1;
    }
    *records = out;
}

/// Each pass stays on its own side: the 2D-to-3D pass never touches the 2D
/// pose or its change mark, the 3D-to-2D pass never touches the native pose
/// or its change mark, and a pass that writes marks its target side changed.
/// This is why running both passes in one update pass would feed each
/// other's change filters, and why the schedule keeps them apart.
pub proof fn lemma_sync_passes_one_sided(r: SpatialRecordModel, force: bool)
    ensures
        sync_2d_to_3d_record(r, force).transform_2d == r.transform_2d,
        sync_2d_to_3d_record(r, force).changed_2d == r.changed_2d,
        sync_2d_to_3d_record(r, force).z_offset == r.z_offset,
        (r.changed_2d || force) ==> sync_2d_to_3d_record(r, force).changed_3d,
        sync_3d_to_2d_record(r).transform_3d == r.transform_3d,
        sync_3d_to_2d_record(r).changed_3d == r.changed_3d,
        sync_3d_to_2d_record(r).z_offset == r.z_offset,
        r.changed_3d ==> sync_3d_to_2d_record(r).changed_2d,
{
}

/// What the same-frame hazard would do: if both passes ran over one record
/// in a single update pass, the 2D-to-3D write would trip the 3D-to-2D
/// pass's change filter and the pose would be rewritten by the round trip.
/// For a pose whose rotor is unit that rewrite keeps the translation and
/// scale and only rescales the rotor (and by
/// [`crate::project::lemma_project_idempotent`] even repeating it keeps the
/// rotation's exact direction) — but it is still a write, with the depth
/// copied into the pose and the 2D side marked changed again, which is why
/// the schedule keeps the two passes apart instead.
pub proof fn lemma_same_frame_writeback(r: SpatialRecordModel, force: bool)
    requires
        r.changed_2d || force,
    ensures
        ({
            let after = sync_3d_to_2d_record(sync_2d_to_3d_record(r, force));
            &&& after.transform_2d.translation == r.transform_2d.translation
            &&& after.transform_2d.scale == r.transform_2d.scale
            &&& r.transform_2d.rotation.is_unit()
                ==> after.transform_2d.rotation.same_direction(r.transform_2d.rotation)
            &&& after.changed_2d
        }),
{
    crate::project::lemma_project_round_trip(r.transform_2d, r.z_offset, r.transform_3d);
}

} // verus!

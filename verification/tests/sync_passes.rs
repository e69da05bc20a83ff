use transform2d::bundle::Spatial2dBundle;
use transform2d::bundle::Transform2dBundle;
use transform2d::bundle::Visibility;
use transform2d::rot2::Rot2;
use transform2d::systems::sync_transform_2d_to_3d;
use transform2d::systems::sync_transform_3d_to_2d;
use transform2d::systems::SpatialRecord;
use transform2d::transform2d::Transform2d;
use transform2d::transform3d::Quat;
use transform2d::transform3d::Transform3d;
use transform2d::vec2::Vec2;
use transform2d::vec3::Vec3;
use transform2d::z_index::ZIndex;
use transform2d::z_offset::ZOffset;

fn record(changed_2d: bool, changed_3d: bool) -> SpatialRecord {
    SpatialRecord {
        transform_2d: Transform2d::from_xy(5, 6).with_rotation(Rot2::new(0, 1)),
        z_offset: None,
        transform_3d: Transform3d {
            translation: Vec3::new(1, 2, 42),
            rotation: Quat::identity(),
            scale: Vec3::new(1, 1, 1),
        },
        changed_2d,
        changed_3d,
    }
}

#[test]
fn sync_2d_to_3d_updates_only_changed_records() {
    let mut records = vec![record(true, false), record(false, false)];
    sync_transform_2d_to_3d(&mut records, false);
    assert_eq!(records[0].transform_3d.translation, Vec3::new(5, 6, 42));
    assert_eq!(records[0].transform_3d.rotation, Quat::new(0, 0, 1, 1));
    assert!(records[0].changed_3d);
    assert_eq!(records[1].transform_3d, record(false, false).transform_3d);
    assert!(!records[1].changed_3d);
}

#[test]
fn sync_2d_to_3d_forced_updates_everything() {
    let mut records = vec![record(false, false), record(false, false)];
    sync_transform_2d_to_3d(&mut records, true);
    assert_eq!(records[0].transform_3d.translation, Vec3::new(5, 6, 42));
    assert_eq!(records[1].transform_3d.translation, Vec3::new(5, 6, 42));
    assert!(records[0].changed_3d && records[1].changed_3d);
}

#[test]
fn sync_2d_to_3d_applies_depth_override() {
    let mut with_override = record(true, false);
    with_override.z_offset = Some(ZOffset::new(-8));
    let mut records = vec![with_override];
    sync_transform_2d_to_3d(&mut records, false);
    assert_eq!(records[0].transform_3d.translation.z, -8);
}

#[test]
fn sync_2d_to_3d_leaves_the_pose_alone() {
    let mut records = vec![record(true, false)];
    let pose_before = records[0].transform_2d;
    sync_transform_2d_to_3d(&mut records, false);
    assert_eq!(records[0].transform_2d, pose_before);
}

#[test]
fn sync_3d_to_2d_updates_only_changed_records() {
    let mut moved = record(false, true);
    moved.transform_3d.translation = Vec3::new(30, 40, 9);
    moved.transform_3d.rotation = Quat::new(0, 0, 3, 4);
    let mut records = vec![moved, record(false, false)];
    sync_transform_3d_to_2d(&mut records);
    assert_eq!(records[0].transform_2d.translation, Vec2::new(30, 40));
    assert_eq!(records[0].transform_2d.z_translation, 9);
    assert_eq!(records[0].transform_2d.rotation, Rot2::new(7, 24));
    assert!(records[0].changed_2d);
    assert_eq!(records[1].transform_2d, record(false, false).transform_2d);
    assert!(!records[1].changed_2d);
}

#[test]
fn sync_3d_to_2d_leaves_the_native_pose_alone() {
    let mut records = vec![record(false, true)];
    let native_before = records[0].transform_3d;
    sync_transform_3d_to_2d(&mut records);
    assert_eq!(records[0].transform_3d, native_before);
}

#[test]
fn same_frame_double_sync_rewrites_the_pose() {
    // Running both passes over one record in a single update pass: the first
    // pass's write trips the second pass's change filter, which then rewrites
    // the pose — same translation, a rescaled rotor, and the depth copied in.
    // This is the hazard the schedule's ordering exists to avoid.
    let mut records = vec![record(true, false)];
    sync_transform_2d_to_3d(&mut records, false);
    sync_transform_3d_to_2d(&mut records);
    let pose = records[0].transform_2d;
    assert_eq!(pose.translation, Vec2::new(5, 6));
    assert_eq!(pose.rotation, Rot2::new(0, 2));
    assert_eq!(pose.z_translation, 42);
    assert!(records[0].changed_2d);
}

#[test]
fn bundles_start_at_identity() {
    let pose = Transform2d::from_xy(3, 4);
    let b = Transform2dBundle::from_transform(pose);
    assert_eq!(b.transform, pose);
    assert_eq!(b.transform_3d, Transform3d::identity());
    assert_eq!(b.global_transform, Transform3d::identity());
    let s = Spatial2dBundle::from_transform(pose);
    assert_eq!(s.transform, pose);
    assert_eq!(s.visibility, Visibility::Inherited);
    assert!(!s.computed.is_visible);
    assert_eq!(s.transform_3d, Transform3d::identity());
}

#[test]
fn depth_companions_hold_their_value() {
    assert_eq!(ZOffset::new(17).get(), 17);
    assert_eq!(ZIndex::new(-4).get(), -4);
    assert_eq!(ZOffset::new(17), ZOffset(17));
    assert_eq!(ZIndex::new(-4), ZIndex(-4));
}

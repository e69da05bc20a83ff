use transform2d::project::project_to_2d;
use transform2d::project::project_to_3d;
use transform2d::rot2::Rot2;
use transform2d::transform2d::Transform2d;
use transform2d::transform3d::Quat;
use transform2d::transform3d::Transform3d;
use transform2d::vec2::Vec2;
use transform2d::vec3::Vec3;

fn sample_pose() -> Transform2d {
    Transform2d::from_translation(Vec2::new(5, 6))
        .with_rotation(Rot2::new(0, 1))
        .with_scale(Vec2::new(2, 3))
        .with_z_translation(9)
}

fn sample_native() -> Transform3d {
    Transform3d {
        translation: Vec3::new(0, 0, 42),
        rotation: Quat::identity(),
        scale: Vec3::new(1, 1, 1),
    }
}

#[test]
fn project_to_3d_writes_planar_fields() {
    let native = project_to_3d(&sample_pose(), None, &sample_native());
    assert_eq!(native.translation, Vec3::new(5, 6, 42));
    assert_eq!(native.rotation, Quat::new(0, 0, 1, 1));
    assert_eq!(native.scale, Vec3::new(2, 3, 1));
}

#[test]
fn depth_override_wins() {
    let native = project_to_3d(&sample_pose(), Some(7), &sample_native());
    assert_eq!(native.translation.z, 7);
}

#[test]
fn missing_depth_preserves_native_z_across_repeated_calls() {
    let once = project_to_3d(&sample_pose(), None, &sample_native());
    assert_eq!(once.translation.z, 42);
    let moved = sample_pose().with_translation(Vec2::new(-100, 250));
    let twice = project_to_3d(&moved, None, &once);
    assert_eq!(twice.translation.z, 42);
}

#[test]
fn z_scale_is_forced_to_one() {
    let mut native = sample_native();
    native.scale = Vec3::new(1, 1, 50);
    let written = project_to_3d(&sample_pose(), None, &native);
    assert_eq!(written.scale.z, 1);
}

#[test]
fn round_trip_reproduces_pose() {
    let pose = sample_pose();
    let native = project_to_3d(&pose, Some(7), &sample_native());
    let back = project_to_2d(&native);
    assert_eq!(back.translation, pose.translation);
    assert_eq!(back.scale, pose.scale);
    assert_eq!(back.z_translation, 7);
    // The quarter-turn rotor comes back as (0, 2): a positive scaling of the
    // original (0, 1), the same angle modulo a full turn.
    assert_eq!(back.rotation, Rot2::new(0, 2));
    assert_eq!(back.rotation.cos * pose.rotation.sin, back.rotation.sin * pose.rotation.cos);
    assert!(back.rotation.cos * pose.rotation.cos + back.rotation.sin * pose.rotation.sin > 0);
}

#[test]
fn round_trip_of_half_turn() {
    let pose = sample_pose().with_rotation(Rot2::new(-1, 0));
    let native = project_to_3d(&pose, None, &sample_native());
    assert_eq!(native.rotation, Quat::new(0, 0, 1, 0));
    let back = project_to_2d(&native);
    assert_eq!(back.rotation, Rot2::new(-1, 0));
}

#[test]
fn round_trip_of_identity_rotation() {
    let pose = sample_pose().with_rotation(Rot2::identity());
    let native = project_to_3d(&pose, None, &sample_native());
    assert_eq!(native.rotation, Quat::new(0, 0, 0, 2));
    let back = project_to_2d(&native);
    assert_eq!(back.rotation, Rot2::new(4, 0));
    assert!(back.rotation.cos > 0 && back.rotation.sin == 0);
}

#[test]
fn off_plane_rotation_is_discarded() {
    // A quarter turn about the X axis: the unit quaternion is
    // (sqrt(2)/2, 0, 0, sqrt(2)/2), and (1, 0, 0, 1) is a positive scaling
    // of it.  Its ZYX Euler decomposition has a zero Z component, so the
    // projected rotation must be the zero angle, not a quarter turn.
    let mut native = sample_native();
    native.rotation = Quat::new(1, 0, 0, 1);
    let back = project_to_2d(&native);
    assert_eq!(back.rotation, Rot2::new(2, 0));
    let quarter = Rot2::new(0, 1);
    assert_ne!(back.rotation.cos * quarter.sin, back.rotation.sin * quarter.cos);
}

#[test]
fn tilted_axis_half_turn_projects_to_its_euler_z() {
    // A half turn about the tilted axis (0, 1, 1): the quaternion (0, 1, 1, 0)
    // decomposes with a Z component of a half turn, not of the zero angle.
    let mut native = sample_native();
    native.rotation = Quat::new(0, 1, 1, 0);
    let back = project_to_2d(&native);
    assert_eq!(back.rotation, Rot2::new(-2, 0));
}

#[test]
fn reencoding_a_readback_pose_keeps_its_direction() {
    // A quarter-turn pose comes back with the scaled rotor (0, 2); projecting
    // that pose again must still write a quarter turn, not some other angle.
    let pose = sample_pose();
    let back = project_to_2d(&project_to_3d(&pose, None, &sample_native()));
    assert_eq!(back.rotation, Rot2::new(0, 2));
    let native_again = project_to_3d(&back, Some(back.z_translation), &sample_native());
    assert_eq!(native_again.rotation, Quat::new(0, 0, 2, 2));
    let twice = project_to_2d(&native_again);
    assert_eq!(twice.translation, back.translation);
    assert_eq!(twice.scale, back.scale);
    assert_eq!(twice.z_translation, back.z_translation);
    assert_eq!(twice.rotation, Rot2::new(0, 8));
    assert_eq!(twice.rotation.cos * back.rotation.sin, twice.rotation.sin * back.rotation.cos);
    assert!(twice.rotation.cos * back.rotation.cos + twice.rotation.sin * back.rotation.sin > 0);
}

#[test]
fn scaled_rotor_projects_by_its_direction() {
    // The rotors (3, 4) and (6, 8) denote the same angle; their orientations
    // are positive scalings of one another and decode to the same direction.
    let small = project_to_3d(&sample_pose().with_rotation(Rot2::new(3, 4)), None, &sample_native());
    assert_eq!(small.rotation, Quat::new(0, 0, 4, 8));
    let large = project_to_3d(&sample_pose().with_rotation(Rot2::new(6, 8)), None, &sample_native());
    assert_eq!(large.rotation, Quat::new(0, 0, 8, 16));
    let back = project_to_2d(&small);
    assert_eq!(back.rotation, Rot2::new(48, 64));
    assert_eq!(back.rotation.cos * 4, back.rotation.sin * 3);
    assert!(back.rotation.cos * 3 + back.rotation.sin * 4 > 0);
    let back_large = project_to_2d(&large);
    assert_eq!(back_large.rotation, Rot2::new(192, 256));
    assert_eq!(back_large.rotation.cos * back.rotation.sin, back_large.rotation.sin * back.rotation.cos);
}

#[test]
fn zero_rotor_projects_to_identity_orientation() {
    let pose = sample_pose().with_rotation(Rot2::new(0, 0));
    let native = project_to_3d(&pose, None, &sample_native());
    assert_eq!(native.rotation, Quat::new(0, 0, 0, 1));
}

#[test]
fn project_to_2d_reads_native_fields() {
    let native = Transform3d {
        translation: Vec3::new(11, -12, 13),
        rotation: Quat::new(0, 0, 3, 4),
        scale: Vec3::new(5, 6, 7),
    };
    let back = project_to_2d(&native);
    assert_eq!(back.translation, Vec2::new(11, -12));
    assert_eq!(back.z_translation, 13);
    assert_eq!(back.scale, Vec2::new(5, 6));
    // yaw of (0, 0, 3, 4): cos = 16 - 9 = 7, sin = 2 * 4 * 3 = 24.
    assert_eq!(back.rotation, Rot2::new(7, 24));
}

#[test]
fn singular_yaw_defaults_to_zero_angle() {
    // A half turn about (1, 0, 1) sits exactly on the decomposition's
    // singularity: both yaw components vanish and the zero angle is used.
    let mut native = sample_native();
    native.rotation = Quat::new(1, 0, 1, 0);
    let back = project_to_2d(&native);
    assert_eq!(back.rotation, Rot2::identity());
}

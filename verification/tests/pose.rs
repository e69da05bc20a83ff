use transform2d::mat::Mat2;
use transform2d::rot2::Rot2;
use transform2d::transform2d::IntoScale;
use transform2d::transform2d::Transform2d;
use transform2d::vec2::Vec2;

#[test]
fn local_vectors() {
    let mut transform = Transform2d::from_rotation(Rot2::new(3, 4));
    assert_eq!(transform.local_y(), transform.rotation_matrix().mul_vec2(Vec2::new(0, 1)));
    assert_eq!(transform.local_x(), transform.rotation_matrix().mul_vec2(Vec2::new(1, 0)));
    transform.rotation = Rot2::new(-5, 12);
    assert_eq!(transform.local_y(), transform.rotation_matrix().mul_vec2(Vec2::new(0, 1)));
    assert_eq!(transform.local_x(), transform.rotation_matrix().mul_vec2(Vec2::new(1, 0)));
}

#[test]
fn identity_fields() {
    let t = Transform2d::identity();
    assert_eq!(t.translation, Vec2::new(0, 0));
    assert_eq!(t.rotation, Rot2::new(1, 0));
    assert_eq!(t.scale, Vec2::new(1, 1));
    assert_eq!(t.z_translation, 0);
    assert_eq!(Transform2d::default(), t);
}

#[test]
fn constructors_override_one_field() {
    assert_eq!(Transform2d::from_xy(7, -9).translation, Vec2::new(7, -9));
    assert_eq!(Transform2d::from_xy(7, -9).scale, Vec2::new(1, 1));
    assert_eq!(Transform2d::from_translation(Vec2::new(1, 2)).translation, Vec2::new(1, 2));
    assert_eq!(Transform2d::from_rotation(Rot2::new(0, 1)).rotation, Rot2::new(0, 1));
    assert_eq!(Transform2d::from_scale(Vec2::new(2, 3)).scale, Vec2::new(2, 3));
}

#[test]
fn uniform_scale_splats() {
    assert_eq!(Transform2d::from_scale(5i64).scale, Vec2::new(5, 5));
    assert_eq!(7i64.into_scale(), Vec2::new(7, 7));
    assert_eq!(Vec2::new(2, 3).into_scale(), Vec2::new(2, 3));
}

#[test]
fn zero_scale_is_allowed() {
    let t = Transform2d::from_scale(0i64);
    assert_eq!(t.scale, Vec2::new(0, 0));
    let m = t.matrix();
    assert_eq!(m.x_axis.x, 0);
    assert_eq!(m.y_axis.y, 0);
}

#[test]
fn builders_replace_one_field() {
    let t = Transform2d::from_xy(1, 2)
        .with_rotation(Rot2::new(0, 1))
        .with_scale(Vec2::new(4, 5))
        .with_z_translation(-3)
        .with_translation(Vec2::new(8, 9));
    assert_eq!(t.translation, Vec2::new(8, 9));
    assert_eq!(t.rotation, Rot2::new(0, 1));
    assert_eq!(t.scale, Vec2::new(4, 5));
    assert_eq!(t.z_translation, -3);
}

#[test]
fn direction_vectors() {
    let t = Transform2d::from_rotation(Rot2::new(3, 4));
    assert_eq!(t.right(), Vec2::new(3, 4));
    assert_eq!(t.left(), Vec2::new(-3, -4));
    assert_eq!(t.up(), Vec2::new(-4, 3));
    assert_eq!(t.down(), Vec2::new(4, -3));
}

#[test]
fn rotation_matrix_columns() {
    let m = Transform2d::from_rotation(Rot2::new(3, 4)).rotation_matrix();
    assert_eq!(m, Mat2 { x_axis: Vec2::new(3, 4), y_axis: Vec2::new(-4, 3) });
}

#[test]
fn matrix_is_scale_then_rotate_then_translate() {
    let t = Transform2d::from_translation(Vec2::new(7, 8))
        .with_rotation(Rot2::new(3, 4))
        .with_scale(Vec2::new(2, 3));
    let m = t.matrix();
    assert_eq!((m.x_axis.x, m.x_axis.y, m.x_axis.z), (6, 8, 0));
    assert_eq!((m.y_axis.x, m.y_axis.y, m.y_axis.z), (-12, 9, 0));
    assert_eq!((m.z_axis.x, m.z_axis.y, m.z_axis.z), (7, 8, 1));
}

#[test]
fn affine_applies_scale_rotate_translate() {
    let t = Transform2d::from_translation(Vec2::new(7, 8))
        .with_rotation(Rot2::new(3, 4))
        .with_scale(Vec2::new(2, 3));
    let a = t.affine();
    assert_eq!(a.matrix2.x_axis, Vec2::new(6, 8));
    assert_eq!(a.matrix2.y_axis, Vec2::new(-12, 9));
    assert_eq!(a.translation, Vec2::new(7, 8));
    assert_eq!(a.transform_point2(Vec2::new(1, 1)), Vec2::new(1, 25));
}

#[test]
fn translate_around_zero_angle_is_identity() {
    let mut t = Transform2d::from_xy(31, -17);
    t.translate_around(Vec2::new(400, 12), &Rot2::identity());
    assert_eq!(t.translation, Vec2::new(31, -17));
    assert_eq!(t.rotation, Rot2::identity());
}

#[test]
fn quarter_turn_orbit() {
    let mut t = Transform2d::from_xy(200, 0);
    t.translate_around(Vec2::new(0, 0), &Rot2::new(0, 1));
    assert_eq!(t.translation, Vec2::new(0, 200));
    assert_eq!(t.rotation, Rot2::identity());
}

#[test]
fn rotate_around_then_inverse_returns() {
    let mut t = Transform2d::from_xy(10, 5).with_rotation(Rot2::new(0, 1));
    let point = Vec2::new(2, 3);
    let r = Rot2::new(0, 1);
    t.rotate_around(point, &r);
    assert_eq!(t.translation, Vec2::new(0, 11));
    assert_eq!(t.rotation, Rot2::new(-1, 0));
    t.rotate_around(point, &r.inverse());
    assert_eq!(t.translation, Vec2::new(10, 5));
    assert_eq!(t.rotation, Rot2::new(0, 1));
}

#[test]
fn rotor_algebra() {
    let r = Rot2::new(3, 4);
    assert_eq!(r.compose(&r), Rot2::new(-7, 24));
    assert_eq!(r.inverse(), Rot2::new(3, -4));
    assert_eq!(Rot2::new(0, 1).apply(Vec2::new(3, 4)), Vec2::new(-4, 3));
    assert_eq!(Rot2::identity().apply(Vec2::new(3, 4)), Vec2::new(3, 4));
}

//! The transform component's model matrix against the math library.

use glam::{Mat4, Vec3};
use ventura::mat4::{identity_matrix, scale_matrix, translation_matrix, F32_ONE, F32_ZERO};
use ventura::transform::{Transform, DEFAULT_SCALE};

fn bits_of(m: Mat4) -> [u32; 16] {
    bytemuck::cast(m)
}

#[test]
fn bit_constants_match_floats() {
    assert_eq!(F32_ZERO, 0.0f32.to_bits());
    assert_eq!(F32_ONE, 1.0f32.to_bits());
    assert_eq!(DEFAULT_SCALE, 32.0f32.to_bits());
}

#[test]
fn default_transform_is_origin_with_scale_32() {
    let t = Transform::default();
    assert_eq!(t.position_x, 0.0f32.to_bits());
    assert_eq!(t.position_y, 0.0f32.to_bits());
    assert_eq!(t.rotation, 0.0f32.to_bits());
    assert_eq!(t.scale_x, 32.0f32.to_bits());
    assert_eq!(t.scale_y, 32.0f32.to_bits());
}

#[test]
fn from_translation_uses_default_scale() {
    let t = Transform::from_translation(20.0f32.to_bits(), 20.0f32.to_bits());
    assert_eq!(t.position_x, 20.0f32.to_bits());
    assert_eq!(t.position_y, 20.0f32.to_bits());
    assert_eq!(t.rotation, 0.0f32.to_bits());
    assert_eq!(t.scale_x, 32.0f32.to_bits());
    assert_eq!(t.scale_y, 32.0f32.to_bits());
}

#[test]
fn identity_matrix_matches_glam() {
    assert_eq!(identity_matrix(), bits_of(Mat4::IDENTITY));
}

#[test]
fn translation_matrix_matches_glam() {
    let m = translation_matrix(7.25f32.to_bits(), (-1.5f32).to_bits());
    assert_eq!(m, bits_of(Mat4::from_translation(Vec3::new(7.25, -1.5, 0.0))));
}

#[test]
fn scale_matrix_matches_glam() {
    let m = scale_matrix(2.0f32.to_bits(), 4.5f32.to_bits());
    assert_eq!(m, bits_of(Mat4::from_scale(Vec3::new(2.0, 4.5, 1.0))));
}

#[test]
fn model_matrix_is_translate_rotate_scale() {
    let t = Transform::new(
        3.5f32.to_bits(),
        (-2.0f32).to_bits(),
        0.7f32.to_bits(),
        2.0f32.to_bits(),
        4.0f32.to_bits(),
    );
    let expected = Mat4::from_translation(Vec3::new(3.5, -2.0, 0.0))
        * Mat4::from_rotation_z(0.7)
        * Mat4::from_scale(Vec3::new(2.0, 4.0, 1.0));
    assert_eq!(t.matrix(), bits_of(expected));
}

#[test]
fn model_matrix_without_rotation_is_translate_scale() {
    let t = Transform::from_translation(20.0f32.to_bits(), 20.0f32.to_bits());
    let expected =
        Mat4::from_translation(Vec3::new(20.0, 20.0, 0.0)) * Mat4::from_scale(Vec3::new(32.0, 32.0, 1.0));
    assert_eq!(t.matrix(), bits_of(expected));
}

//! The projection convention and the view-projection round trip.

use glam::{Mat4, Vec3};
use ventura::render::camera::{camera_view_projection, OrthographicProjection};
use ventura::transform::Transform;

fn bits_of(m: Mat4) -> [u32; 16] {
    bytemuck::cast(m)
}

fn expected_projection(width: u32, height: u32) -> Mat4 {
    let half_w = width as f32 / 2.0;
    let half_h = height as f32 / 2.0;
    glam::camera::rh::proj::directx::orthographic(-half_w, half_w, -half_h, half_h, -1.0, 1.0)
}

fn expected_view(px: f32, py: f32) -> Mat4 {
    let eye = Vec3::new(px, py, 0.0);
    glam::camera::rh::view::look_at_mat4(eye, eye + Vec3::Z, Vec3::Y)
}

#[test]
fn projection_reproduces_centered_frustum() {
    let projection = OrthographicProjection;
    assert_eq!(projection.matrix(800, 600), bits_of(expected_projection(800, 600)));
    assert_eq!(projection.matrix(1, 1), bits_of(expected_projection(1, 1)));
    assert_eq!(projection.matrix(799, 601), bits_of(expected_projection(799, 601)));
    assert_eq!(projection.matrix(2560, 1440), bits_of(expected_projection(2560, 1440)));
}

#[test]
fn view_projection_is_projection_times_view() {
    let cam = Transform::new(
        12.5f32.to_bits(),
        (-3.25f32).to_bits(),
        0.0f32.to_bits(),
        1.0f32.to_bits(),
        1.0f32.to_bits(),
    );
    let got = camera_view_projection(1024, 768, &cam);
    let expected = expected_projection(1024, 768) * expected_view(12.5, -3.25);
    assert_eq!(got, bits_of(expected));
}

#[test]
fn view_projection_bit_identical_on_recompute() {
    let cam = Transform::new(
        40.0f32.to_bits(),
        20.0f32.to_bits(),
        0.0f32.to_bits(),
        1.0f32.to_bits(),
        1.0f32.to_bits(),
    );
    let first = camera_view_projection(800, 600, &cam);
    let second = camera_view_projection(800, 600, &cam);
    assert_eq!(first, second);
    let third = camera_view_projection(800, 600, &cam.clone());
    assert_eq!(first, third);
}

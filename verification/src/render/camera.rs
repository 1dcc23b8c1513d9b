//! The camera markers and the view-projection matrix.
//!
//! The projection is orthographic and centered: the frustum spans half the
//! window extent each way, so the origin sits at the screen center and the
//! camera's own transform supplies the view. Both matrices are pure functions
//! of their inputs, so recomputing them for the same window size and camera
//! position always yields the same bits.

use vstd::prelude::*;

use crate::mat4::{mat4_mul, mat_mul, F32_ZERO};
use crate::transform::Transform;

verus! {

/// Bit pattern of one half, the factor that turns a window extent into a
/// half extent.
const F32_HALF: u32 = 0x3F00_0000;

/// Bit pattern of negative one, the near plane of the projection.
const F32_NEG_ONE: u32 = 0xBF80_0000;

/// Bit pattern of positive one, the far plane of the projection.
const F32_POS_ONE: u32 = 0x3F80_0000;

/// Marker component representing the primary camera used for the game world.
#[derive(Copy, Clone, Debug)]
pub struct PrimaryCamera;

/// Marker component tagging an entity that the camera focus on.
pub struct CameraTarget;

/// This component describes the projection matrix to use on entities with the
/// [`PrimaryCamera`] component.
#[derive(Copy, Clone, Debug)]
pub struct OrthographicProjection;

/// The bits of the centered orthographic projection for a window of the given
/// pixel size: left and right at minus and plus half the width, bottom and
/// top at minus and plus half the height, depth from minus one to one.
pub uninterp spec fn ortho_mat(window_width: u32, window_height: u32) -> Seq<u32>;

/// The bits of the view matrix of a camera standing at `(px, py, 0)`, looking
/// along the positive z axis with positive y up.
pub uninterp spec fn view_mat(px: u32, py: u32) -> Seq<u32>;

/// The view-projection matrix uploaded for a camera: projection times view.
pub open spec fn view_projection(window_width: u32, window_height: u32, cam: Transform) -> Seq<
    u32,
> {
    mat_mul(ortho_mat(window_width, window_height), view_mat(cam.position_x, cam.position_y))
}

impl OrthographicProjection {
    /// Relies on `glam::camera::rh::proj::directx::orthographic`: the centered
    /// orthographic projection over half the window extent each way, with a
    /// depth range of zero to one, a pure function of the window size.
    #[verifier::external_body]
    pub fn matrix(&self, window_width: u32, window_height: u32) -> (m: [u32; 16])
        ensures
            m@ == ortho_mat(window_width, window_height),
    {
        let half = glam::UVec2::new(window_width, window_height).as_vec2() * glam::Vec2::splat(
            bytemuck::cast(F32_HALF),
        );
        let m = glam::camera::rh::proj::directx::orthographic(
            -half.x,
            half.x,
            -half.y,
            half.y,
            bytemuck::cast(F32_NEG_ONE),
            bytemuck::cast(F32_POS_ONE),
        );
        bytemuck::cast(m)
    }
}

/// Relies on `glam::camera::rh::view::look_at_mat4`: the view matrix of an
/// eye at `(px, py, 0)` aimed one unit along positive z with positive y up, a
/// pure function of the position bits.
#[verifier::external_body]
fn camera_view_matrix(px: u32, py: u32) -> (m: [u32; 16])
    ensures
        m@ == view_mat(px, py),
{
    let eye = glam::Vec3::new(bytemuck::cast(px), bytemuck::cast(py), bytemuck::cast(F32_ZERO));
    bytemuck::cast(glam::camera::rh::view::look_at_mat4(eye, eye + glam::Vec3::Z, glam::Vec3::Y))
}

/// The view-projection matrix for a window of the given size and a camera
/// with the given transform.
pub fn camera_view_projection(window_width: u32, window_height: u32, cam: &Transform) -> (m: [u32;
    16])
    ensures
        m@ == view_projection(window_width, window_height, *cam),
{
    let projection = OrthographicProjection;
    let p = projection.matrix(window_width, window_height);
    let v = camera_view_matrix(cam.position_x, cam.position_y);
    mat4_mul(&p, &v)
}

/// Recomputing the view-projection matrix from the same window size and the
/// same camera transform yields bit-identical results: any two values that
/// meet [`camera_view_projection`]'s contract on equal inputs are equal.
pub proof fn lemma_view_projection_deterministic(
    a: Seq<u32>,
    b: Seq<u32>,
    window_width: u32,
    window_height: u32,
    cam: Transform,
)
    requires
        a == view_projection(window_width, window_height, cam),
        b == view_projection(window_width, window_height, cam),
    ensures
        a == b,
{
}

} // verus!

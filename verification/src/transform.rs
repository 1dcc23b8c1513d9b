//! The per-entity transform component: position, rotation and scale, carried
//! as the bit patterns of the numbers, and its model matrix.

use vstd::prelude::*;

use crate::mat4::{
    mat4_mul, mat_mul, rot_z_mat, rotation_z_matrix, scale_mat, scale_matrix, translation_mat,
    translation_matrix, F32_ZERO,
};

verus! {

/// Bit pattern of the default scale factor of 32, so that unconfigured
/// sprites stay visible.
pub const DEFAULT_SCALE: u32 = 0x4200_0000;

/// This component stores the entity's location and orientation in the world
/// space. Each field holds the bit pattern of the number it stands for:
/// the position in world units, the rotation in radians, the scale factors.
#[derive(Copy, Clone, Debug, PartialEq, Eq, Structural)]
pub struct Transform {
    pub position_x: u32,
    pub position_y: u32,
    pub rotation: u32,
    pub scale_x: u32,
    pub scale_y: u32,
}

/// The model matrix of a transform: translation times rotation about z times
/// scale, in exactly that order.
pub open spec fn model_matrix(t: Transform) -> Seq<u32> {
    mat_mul(
        mat_mul(translation_mat(t.position_x, t.position_y), rot_z_mat(t.rotation)),
        scale_mat(t.scale_x, t.scale_y),
    )
}

impl Transform {
    pub fn new(position_x: u32, position_y: u32, rotation: u32, scale_x: u32, scale_y: u32) -> (t:
        Self)
        ensures
            t == (Transform { position_x, position_y, rotation, scale_x, scale_y }),
    {
        Self { position_x, position_y, rotation, scale_x, scale_y }
    }

    /// A transform at the given position with no rotation and the default
    /// scale.
    pub fn from_translation(x: u32, y: u32) -> (t: Self)
        ensures
            t == (Transform {
                position_x: x,
                position_y: y,
                rotation: F32_ZERO,
                scale_x: DEFAULT_SCALE,
                scale_y: DEFAULT_SCALE,
            }),
    {
        Self {
            position_x: x,
            position_y: y,
            rotation: F32_ZERO,
            scale_x: DEFAULT_SCALE,
            scale_y: DEFAULT_SCALE,
        }
    }

    /// Convert the transform component into a 4x4 matrix: the translation
    /// matrix times the rotation matrix times the scale matrix.
    pub fn matrix(&self) -> (m: [u32; 16])
        ensures
            m@ == model_matrix(*self),
    {
        let translation = translation_matrix(self.position_x, self.position_y);
        let rotation = rotation_z_matrix(self.rotation);
        let scale = scale_matrix(self.scale_x, self.scale_y);
        let leading = mat4_mul(&translation, &rotation);
        mat4_mul(&leading, &scale)
    }
}

impl Default for Transform {
    /// The default transform: at the origin, unrotated, scaled by 32.
    fn default() -> (t: Self)
        ensures
            t == (Transform {
                position_x: F32_ZERO,
                position_y: F32_ZERO,
                rotation: F32_ZERO,
                scale_x: DEFAULT_SCALE,
                scale_y: DEFAULT_SCALE,
            }),
    {
        Self {
            position_x: F32_ZERO,
            position_y: F32_ZERO,
            rotation: F32_ZERO,
            scale_x: DEFAULT_SCALE,
            scale_y: DEFAULT_SCALE,
        }
    }
}

} // verus!

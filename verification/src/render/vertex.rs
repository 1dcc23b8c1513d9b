//! The vertex layout of the sprite quad: a 2D position and a texture
//! coordinate, carried as bit patterns.

use vstd::prelude::*;

verus! {

/// Represents vertex information that will be uploaded to the GPU: the
/// position within the unit quad and the texture coordinate, each component
/// carried as the bit pattern of the number it stands for.
#[derive(Copy, Clone, Debug, PartialEq, Eq, Structural)]
pub struct Vertex {
    pub position_x: u32,
    pub position_y: u32,
    pub texture_u: u32,
    pub texture_v: u32,
}

} // verus!

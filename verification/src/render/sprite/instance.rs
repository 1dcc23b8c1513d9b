//! One instance record of the sprite pipeline: the model matrix of one
//! sprite, as entry bits.

use vstd::prelude::*;

verus! {

/// Represents the per-instance data uploaded to the GPU for one sprite: its
/// model matrix, column-major, as entry bits.
#[derive(Clone, Copy, Debug)]
pub struct SpriteInstanceData {
    transform: [u32; 16],
}

impl SpriteInstanceData {
    /// The matrix this record carries.
    pub closed spec fn matrix(&self) -> Seq<u32> {
        self.transform@
    }

    pub fn new(transform: [u32; 16]) -> (r: Self)
        ensures
            r.matrix() == transform@,
    {
        Self { transform }
    }
}

} // verus!

//! The sprite marker component and the sprite draw pipeline.

pub mod instance;
pub mod pipeline;

use vstd::prelude::*;

verus! {

/// Component describing a sprite rendered by the sprite pipeline. It carries
/// no per-instance data beyond identity: every sprite shares one texture.
pub struct Sprite {}

impl Sprite {
    pub fn from_image(path: &str) -> (s: Self)
        ensures
            s == (Sprite {  }),
    {
        Self {  }
    }

    pub fn from_color(color: wgpu::Color) -> (s: Self)
        ensures
            s == (Sprite {  }),
    {
        Self {  }
    }
}

} // verus!

//! The rendering core: GPU handle declarations, the camera, the sprite
//! pipeline, textures, bindings and the frame-driving render context.

pub mod camera;
pub mod context;
pub mod gpu;
pub mod pass;
pub mod sprite;
pub mod texture;
pub mod util;
pub mod vertex;

//! A small 2D sprite renderer: a GPU sprite pipeline fed each frame from an
//! entity store, with a camera projection and a fixed-capacity instance
//! buffer.

pub mod mat4;
pub mod render;
pub mod transform;
pub mod world;

//! Texture data owned by the library.
//!
//! Sampling a texture is a floating-point color lookup done by the renderer;
//! the library owns the shape of the texture data itself.

pub mod checkered;

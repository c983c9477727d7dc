//! Decoding of legacy 2-D sprite/animation containers into renderable
//! raster assets.
//!
//! The input is a parsed container: either a palette with one or more
//! indexed sub-images, or a single direct-color block. The library
//! classifies the container and builds textures, texture sets,
//! animations, or animation sets from it, each with its own structural
//! validation rules. Every byte of every output buffer is pinned down
//! by the contracts.

pub mod animation;
pub mod animation_set;
pub mod container;
pub mod dispatch;
pub mod error;
pub mod file_type;
pub mod laws;
pub mod texture;
pub mod texture_set;

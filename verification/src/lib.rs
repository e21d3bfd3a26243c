//! Pixel-buffer transformations on raw RGBA8 images: 3×3 convolutions and
//! per-pixel colour transforms, with machine-checked contracts.

pub mod photo;
pub mod filters;
pub mod convolutions;
pub mod codec;
pub mod api;

//! Block-pixelation ("mosaic") of a rectangular selection of a raster image,
//! with the selection and commit state machine of an interactive editor.
//!
//! * [`raster`]: the image, a grid of RGBA pixels kept in a buffer of the
//!   `image` crate.
//! * [`geometry`]: display space, image space and the ratio between them.
//! * [`selection`]: the rectangle that the user drags.
//! * [`engine`]: the mosaic itself.
//! * [`editor`]: the committed image, the pending preview, and the
//!   transitions between them.
//! * [`export`]: the name under which an image is saved.

pub mod editor;
pub mod engine;
pub mod export;
pub mod geometry;
pub mod raster;
pub mod selection;

//! Text output onto a linear pixel framebuffer with a fixed bitmap font.

pub mod error;
pub mod font;
pub mod laws;
pub mod model;
pub mod pixels;
pub mod surface;
pub mod writer;

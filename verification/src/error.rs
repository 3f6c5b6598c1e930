//! The ways in which a writer operation can be refused.

use vstd::prelude::*;

verus! {

/// Why the writer declined to build a surface, move the cursor or draw a character.
#[derive(Clone, Copy, Debug, PartialEq, Eq, Structural)]
pub enum WriterError {
    /// The surface uses a pixel format for which no byte encoding is defined.
    UnsupportedPixelFormat,
    /// The geometry cannot be drawn on: a pixel takes no bytes or more than
    /// an encoded pixel holds, or a row in memory is shorter than a visible row.
    InvalidGeometry,
    /// The byte region is shorter than `height * stride * bytes_per_pixel`.
    BufferTooSmall,
    /// An explicit cursor position lies outside the visible area.
    CursorOutOfBounds,
    /// The font has a raster neither for the character nor for the backup character.
    MissingGlyph,
}

} // verus!

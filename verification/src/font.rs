//! The fixed bitmap font: rasterized glyphs and their lookup.

use vstd::prelude::*;
use crate::error::WriterError;
use noto_sans_mono_bitmap::{get_raster, FontWeight, RasterHeight};

verus! {

/// Height in pixels of the raster box of every glyph of the font.
pub const CHAR_RASTER_HEIGHT: usize = 16;

/// Width in pixels of the raster box of every glyph of the font.
pub const CHAR_RASTER_WIDTH: usize = 7;

/// The character whose glyph stands in for characters the font does not know.
pub const BACKUP_CHAR: char = '\u{FFFD}';

/// A rasterized character: a grid of intensity bytes, one per pixel cell
/// (zero is unlit), and the width by which it advances the cursor.
#[derive(Clone, Copy, Debug)]
pub struct Glyph {
    pub rows: &'static [&'static [u8]],
    pub width: usize,
}

impl Glyph {
    /// The intensity grid as a sequence of rows.
    pub open spec fn cells(&self) -> Seq<Seq<u8>> {
        Seq::new(self.rows@.len(), |r: int| self.rows@[r]@)
    }
}

/// The cells of an optional glyph.
pub open spec fn cells_of(glyph: Option<Glyph>) -> Option<Seq<Seq<u8>>> {
    match glyph {
        Some(g) => Some(g.cells()),
        None => None,
    }
}

/// The intensity grid that the font holds for a character in the regular
/// weight at raster height 16, or `None` where the font does not know it.
pub uninterp spec fn font_raster(c: char) -> Option<Seq<Seq<u8>>>;

/// Looks a character up with `noto_sans_mono_bitmap::get_raster`, in the
/// regular weight at raster height 16. Trusted: the grid that comes back is
/// the one named `font_raster`, and its width is the raster width that the
/// font crate fixes for this weight and height.
#[verifier::external_body]
fn lookup_raster(c: char) -> (r: Option<Glyph>)
    ensures
        cells_of(r) == font_raster(c),
        r matches Some(g) ==> g.width == CHAR_RASTER_WIDTH,
{
    match get_raster(c, FontWeight::Regular, RasterHeight::Size16) {
        Some(raster) => Some(Glyph { rows: raster.raster(), width: raster.width() }),
        None => None,
    }
}

/// The glyph to draw given the lookups of a character and of the backup
/// character: the first if the font knows the character, else the second.
pub open spec fn select(primary: Option<Seq<Seq<u8>>>, backup: Option<Seq<Seq<u8>>>) -> Option<
    Seq<Seq<u8>>,
> {
    if primary is Some {
        primary
    } else {
        backup
    }
}

/// The grid drawn for a character: its own, or that of [`BACKUP_CHAR`].
pub open spec fn glyph_cells(c: char) -> Option<Seq<Seq<u8>>> {
    select(font_raster(c), font_raster(BACKUP_CHAR))
}

/// Chooses between the raster of a character and that of the backup
/// character. Fails only when both are missing.
pub fn select_raster(primary: Option<Glyph>, backup: Option<Glyph>) -> (r: Result<Glyph, WriterError>)
    ensures
        r matches Ok(g) ==> Some(g) == (if primary is Some { primary } else { backup }),
        r matches Err(e) ==> e == WriterError::MissingGlyph && primary is None && backup is None,
{
    match primary {
        Some(g) => Ok(g),
        None => match backup {
            Some(g) => Ok(g),
            None => Err(WriterError::MissingGlyph),
        },
    }
}

/// Returns the raster of a character, or that of [`BACKUP_CHAR`] where the
/// font has none for it. Fails where the font has neither.
pub fn get_char_raster(c: char) -> (r: Result<Glyph, WriterError>)
    ensures
        r matches Ok(g) ==> glyph_cells(c) == Some(g.cells()) && g.width == CHAR_RASTER_WIDTH,
        r matches Err(e) ==> e == WriterError::MissingGlyph && glyph_cells(c) is None,
{
    match lookup_raster(c) {
        Some(g) => Ok(g),
        None => select_raster(None, lookup_raster(BACKUP_CHAR)),
    }
}

} // verus!

//! What drawing does to each single byte of the buffer.

use vstd::prelude::*;
use vstd::arithmetic::div_mod::{
    lemma_fundamental_div_mod, lemma_fundamental_div_mod_converse, lemma_mod_pos_bound,
};
use crate::model::{draw_cells, draw_glyph, draw_rows, put_pixel};
use crate::surface::{channel_count, encoded_pixel, padding_clear, Color, SurfaceInfo};

verus! {

/// The cell of a glyph at a column and row exists and is lit.
pub open spec fn lit(cells: Seq<Seq<u8>>, col: int, row: int) -> bool {
    0 <= row < cells.len() && 0 <= col < cells[row].len() && cells[row][col] > 0
}

/// A byte belongs to the pixel at `(x, y)` exactly if it lies in the
/// `bytes_per_pixel` bytes from the pixel's offset on.
pub proof fn lemma_slot_of_pixel(info: SurfaceInfo, x: int, y: int, i: int)
    requires
        info.bytes_per_pixel >= 1,
        info.width <= info.stride,
        info.contains(x, y),
        0 <= i,
    ensures
        (info.byte_offset(x, y) <= i < info.byte_offset(x, y) + info.bytes_per_pixel) <==> (
        info.slot_x(i) == x && info.slot_y(i) == y),
        info.slot_x(i) == x && info.slot_y(i) == y ==> info.slot_channel(i) == i
            - info.byte_offset(x, y),
{
    let b = info.bytes_per_pixel as int;
    let s = info.stride as int;
    let offset = info.byte_offset(x, y);
    let p = i / b;
    lemma_fundamental_div_mod(i, b);
    lemma_mod_pos_bound(i, b);
    lemma_fundamental_div_mod(p, s);
    lemma_mod_pos_bound(p, s);
    assert(b * p == p * b) by (nonlinear_arith);
    assert(s * (p / s) == (p / s) * s) by (nonlinear_arith);
    if offset <= i < offset + b {
        lemma_fundamental_div_mod_converse(i, b, y * s + x, i - offset);
        lemma_fundamental_div_mod_converse(y * s + x, s, y, x);
    }
    if info.slot_x(i) == x && info.slot_y(i) == y {
        assert(p == y * s + x);
        assert(i == offset + i % b);
    }
}

/// Drawing cells of a row keeps the length of the buffer.
pub proof fn lemma_draw_cells_len(
    buffer: Seq<u8>,
    info: SurfaceInfo,
    x: int,
    y: int,
    row: Seq<u8>,
    n: int,
    color: Color,
)
    ensures
        draw_cells(buffer, info, x, y, row, n, color).len() == buffer.len(),
    decreases n,
{
    if n > 0 {
        lemma_draw_cells_len(buffer, info, x, y, row, n - 1, color);
    }
}

/// Drawing rows of a glyph keeps the length of the buffer.
pub proof fn lemma_draw_rows_len(
    buffer: Seq<u8>,
    info: SurfaceInfo,
    x: int,
    y: int,
    cells: Seq<Seq<u8>>,
    n: int,
    color: Color,
)
    ensures
        draw_rows(buffer, info, x, y, cells, n, color).len() == buffer.len(),
    decreases n,
{
    if n > 0 {
        lemma_draw_rows_len(buffer, info, x, y, cells, n - 1, color);
        lemma_draw_cells_len(
            draw_rows(buffer, info, x, y, cells, n - 1, color),
            info,
            x,
            y + n - 1,
            cells[n - 1],
            cells[n - 1].len() as int,
            color,
        );
    }
}

/// After a pixel has been set, a byte holds the encoded color if it belongs
/// to that pixel and the pixel is visible; every other byte is as before.
pub proof fn law_put_pixel_bytes(
    buffer: Seq<u8>,
    info: SurfaceInfo,
    x: int,
    y: int,
    color: Color,
    i: int,
)
    requires
        info.fits(buffer.len() as int),
        0 <= i < buffer.len(),
    ensures
        put_pixel(buffer, info, x, y, color)[i] == if info.contains(x, y) && info.slot_x(i) == x
            && info.slot_y(i) == y {
            encoded_pixel(info.pixel_format, color)[info.slot_channel(i)]
        } else {
            buffer[i]
        },
{
    if info.contains(x, y) {
        lemma_slot_of_pixel(info, x, y, i);
    }
}

/// After the first `n` cells of a row have been drawn, a byte holds the
/// encoded color if its pixel is visible and one of those cells, lit, stands
/// on it; every other byte is as before.
pub proof fn law_draw_cells_bytes(
    buffer: Seq<u8>,
    info: SurfaceInfo,
    x: int,
    y: int,
    row: Seq<u8>,
    n: int,
    color: Color,
    i: int,
)
    requires
        info.fits(buffer.len() as int),
        0 <= i < buffer.len(),
        n <= row.len(),
    ensures
        draw_cells(buffer, info, x, y, row, n, color)[i] == if info.contains(
            info.slot_x(i),
            info.slot_y(i),
        ) && info.slot_y(i) == y && 0 <= info.slot_x(i) - x < n && row[info.slot_x(i) - x] > 0 {
            encoded_pixel(info.pixel_format, color)[info.slot_channel(i)]
        } else {
            buffer[i]
        },
    decreases n,
{
    if n > 0 {
        let before = draw_cells(buffer, info, x, y, row, n - 1, color);
        law_draw_cells_bytes(buffer, info, x, y, row, n - 1, color, i);
        lemma_draw_cells_len(buffer, info, x, y, row, n - 1, color);
        if row[n - 1] > 0 {
            law_put_pixel_bytes(before, info, x + n - 1, y, color, i);
        }
    }
}

/// After the first `n` rows of a glyph have been drawn, a byte holds the
/// encoded color if its pixel is visible and a lit cell of those rows stands
/// on it; every other byte is as before.
pub proof fn law_draw_rows_bytes(
    buffer: Seq<u8>,
    info: SurfaceInfo,
    x: int,
    y: int,
    cells: Seq<Seq<u8>>,
    n: int,
    color: Color,
    i: int,
)
    requires
        info.fits(buffer.len() as int),
        0 <= i < buffer.len(),
        n <= cells.len(),
    ensures
        draw_rows(buffer, info, x, y, cells, n, color)[i] == if info.contains(
            info.slot_x(i),
            info.slot_y(i),
        ) && info.slot_y(i) - y < n && lit(cells, info.slot_x(i) - x, info.slot_y(i) - y) {
            encoded_pixel(info.pixel_format, color)[info.slot_channel(i)]
        } else {
            buffer[i]
        },
    decreases n,
{
    if n > 0 {
        let before = draw_rows(buffer, info, x, y, cells, n - 1, color);
        law_draw_rows_bytes(buffer, info, x, y, cells, n - 1, color, i);
        lemma_draw_rows_len(buffer, info, x, y, cells, n - 1, color);
        law_draw_cells_bytes(
            before,
            info,
            x,
            y + n - 1,
            cells[n - 1],
            cells[n - 1].len() as int,
            color,
            i,
        );
    }
}

/// After a glyph has been drawn at `(x, y)`, a byte holds the encoded color
/// if its pixel is visible and a lit cell of the glyph stands on it; every
/// other byte is as before.
pub proof fn law_draw_glyph_bytes(
    buffer: Seq<u8>,
    info: SurfaceInfo,
    x: int,
    y: int,
    cells: Seq<Seq<u8>>,
    color: Color,
    i: int,
)
    requires
        info.fits(buffer.len() as int),
        0 <= i < buffer.len(),
    ensures
        draw_glyph(buffer, info, x, y, cells, color).len() == buffer.len(),
        draw_glyph(buffer, info, x, y, cells, color)[i] == if info.contains(
            info.slot_x(i),
            info.slot_y(i),
        ) && lit(cells, info.slot_x(i) - x, info.slot_y(i) - y) {
            encoded_pixel(info.pixel_format, color)[info.slot_channel(i)]
        } else {
            buffer[i]
        },
{
    law_draw_rows_bytes(buffer, info, x, y, cells, cells.len() as int, color, i);
    lemma_draw_rows_len(buffer, info, x, y, cells, cells.len() as int, color);
}

/// Setting a pixel leaves zero what stands at padding positions: in the
/// pixel's own slot the encoded padding is zero, and elsewhere nothing changes.
pub proof fn law_put_pixel_keeps_padding(
    buffer: Seq<u8>,
    info: SurfaceInfo,
    x: int,
    y: int,
    color: Color,
)
    requires
        info.fits(buffer.len() as int),
        padding_clear(buffer, info),
    ensures
        padding_clear(put_pixel(buffer, info, x, y, color), info),
{
    let after = put_pixel(buffer, info, x, y, color);
    assert forall|i: int|
        0 <= i < after.len() && #[trigger] info.slot_channel(i) >= channel_count(
            info.pixel_format,
        ) implies after[i] == 0u8 by {
        law_put_pixel_bytes(buffer, info, x, y, color, i);
        lemma_mod_pos_bound(i, info.bytes_per_pixel as int);
    }
}

/// Drawing a glyph leaves zero what stands at padding positions.
pub proof fn law_draw_glyph_keeps_padding(
    buffer: Seq<u8>,
    info: SurfaceInfo,
    x: int,
    y: int,
    cells: Seq<Seq<u8>>,
    color: Color,
)
    requires
        info.fits(buffer.len() as int),
        padding_clear(buffer, info),
    ensures
        draw_glyph(buffer, info, x, y, cells, color).len() == buffer.len(),
        padding_clear(draw_glyph(buffer, info, x, y, cells, color), info),
{
    let after = draw_glyph(buffer, info, x, y, cells, color);
    lemma_draw_rows_len(buffer, info, x, y, cells, cells.len() as int, color);
    assert forall|i: int|
        0 <= i < after.len() && #[trigger] info.slot_channel(i) >= channel_count(
            info.pixel_format,
        ) implies after[i] == 0u8 by {
        law_draw_glyph_bytes(buffer, info, x, y, cells, color, i);
        lemma_mod_pos_bound(i, info.bytes_per_pixel as int);
    }
}

/// The padding bytes of a visible pixel are the same after the pixel has
/// been set as before, in a buffer whose padding is zero.
pub proof fn law_padding_untouched(
    buffer: Seq<u8>,
    info: SurfaceInfo,
    x: int,
    y: int,
    color: Color,
    k: int,
)
    requires
        info.fits(buffer.len() as int),
        padding_clear(buffer, info),
        info.contains(x, y),
        channel_count(info.pixel_format) <= k < info.bytes_per_pixel,
    ensures
        0 <= info.byte_offset(x, y) + k < buffer.len(),
        put_pixel(buffer, info, x, y, color)[info.byte_offset(x, y) + k] == buffer[info.byte_offset(
            x,
            y,
        ) + k],
{
    let i = info.byte_offset(x, y) + k;
    crate::surface::lemma_pixel_in_buffer(info, x, y);
    lemma_slot_of_pixel(info, x, y, i);
    law_put_pixel_bytes(buffer, info, x, y, color, i);
}

} // verus!

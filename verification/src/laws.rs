//! Laws that relate the operations of the writer to each other, stated over
//! the model and proved from its definitions.

use vstd::prelude::*;
use crate::error::WriterError;
use crate::font::{glyph_cells, CHAR_RASTER_WIDTH};
use crate::model::{
    applied_color, clamped, draw_glyph, put_pixel, Outcome, WriterState, BORDER_PADDING,
    LETTER_SPACING, LINE_HEIGHT,
};
use crate::pixels::law_draw_glyph_keeps_padding;
use crate::surface::{Color, SurfaceInfo};

verus! {

/// A character that the layout engine draws as a glyph: any but space,
/// newline, tab and carriage return.
pub open spec fn is_glyph_char(c: char) -> bool {
    c != ' ' && c != '\n' && c != '\t' && c != '\r'
}

/// A printable ASCII character other than the space.
pub open spec fn is_printable_ascii(c: char) -> bool {
    '!' <= c <= '~'
}

/// Writing a pixel outside the visible area changes no byte of the buffer.
pub proof fn law_pixel_out_of_bounds(
    buffer: Seq<u8>,
    info: SurfaceInfo,
    x: int,
    y: int,
    color: Color,
)
    requires
        x >= info.width || y >= info.height,
    ensures
        put_pixel(buffer, info, x, y, color) == buffer,
{
}

/// Clearing leaves every byte zero and the cursor at the padding offset,
/// keeps the colors, and clearing again changes nothing more.
pub proof fn law_clear(s: WriterState)
    ensures
        s.cleared().buffer.len() == s.buffer.len(),
        forall|i: int| 0 <= i < s.buffer.len() ==> s.cleared().buffer[i] == 0u8,
        s.cleared().x_pos == BORDER_PADDING,
        s.cleared().y_pos == BORDER_PADDING,
        s.cleared().current_color == s.current_color,
        s.cleared().default_color == s.default_color,
        s.cleared().cleared() == s.cleared(),
{
    assert(s.cleared().cleared().buffer =~= s.cleared().buffer);
}

/// In the normal state a printable character other than the backslash
/// draws exactly its glyph, in the current color, at the cursor or, where
/// the glyph would reach the right border, at the start of the next line,
/// and advances the cursor by the glyph's width and the letter spacing on
/// the line on which it was drawn. Where the font has no glyph for it, the
/// character fails and changes nothing.
pub proof fn law_printable_char(s: WriterState, c: char)
    requires
        !s.escape_pending,
        is_printable_ascii(c),
        c != '\\',
    ensures
        match glyph_cells(c) {
            Some(cells) => {
                let at = if s.x_pos + CHAR_RASTER_WIDTH >= s.info.width {
                    s.newline()
                } else {
                    s
                };
                let after = s.step(c).state;
                &&& s.step(c).result is Ok
                &&& after.buffer == draw_glyph(
                    s.buffer,
                    s.info,
                    at.x_pos,
                    at.y_pos,
                    cells,
                    s.current_color,
                )
                &&& after.x_pos == clamped(at.x_pos + CHAR_RASTER_WIDTH + LETTER_SPACING)
                &&& after.y_pos == at.y_pos
                &&& s.x_pos + CHAR_RASTER_WIDTH < s.info.width ==> after.y_pos == s.y_pos
                &&& after.info == s.info
                &&& after.current_color == s.current_color
                &&& after.default_color == s.default_color
                &&& !after.escape_pending
            },
            None => s.step(c) == Outcome::failed(s, WriterError::MissingGlyph),
        },
{
}

/// A backslash followed by any character but `c` is laid out as the two
/// ordinary characters, the backslash as a glyph: the escape machinery
/// leaves no trace.
pub proof fn law_invalid_escape(s: WriterState, x: char)
    requires
        !s.escape_pending,
        x != 'c',
    ensures
        s.step('\\').and_step(x) == s.layout('\\').and_layout(x),
        s.layout('\\') == s.glyph('\\'),
        s.step('\\').and_step(x).result is Ok ==> !s.step('\\').and_step(x).state.escape_pending,
        is_glyph_char(x) ==> s.step('\\').and_step(x).state.current_color == s.current_color,
{
    let held = s.step('\\').state;
    assert(WriterState { escape_pending: false, ..held } == s);
    lemma_layout_keeps_normal(s, '\\');
    if s.layout('\\').result is Ok {
        lemma_layout_keeps_normal(s.layout('\\').state, x);
    }
}

/// A backslash followed by `c` draws nothing, moves nothing and makes the
/// applied color the current one.
pub proof fn law_color_escape(s: WriterState)
    requires
        !s.escape_pending,
    ensures
        s.step('\\').and_step('c') == Outcome::done(
            WriterState { current_color: applied_color(), ..s },
        ),
{
}

/// A space that is drawn returns the current color to the default color;
/// one that fails changes nothing.
pub proof fn law_space_resets_color(s: WriterState)
    requires
        !s.escape_pending,
    ensures
        s.step(' ').result is Ok ==> s.step(' ').state.current_color == s.default_color,
        s.step(' ').result is Ok ==> s.step(' ').state.default_color == s.default_color,
        s.step(' ').result is Err ==> s.step(' ').state == s,
{
}

/// A tab is four spaces.
pub proof fn law_tab_is_four_spaces(s: WriterState)
    ensures
        s.step('\t') == s.step(' ').and_step(' ').and_step(' ').and_step(' '),
{
    reveal_with_fuel(WriterState::spaces, 5);
    if s.escape_pending {
        let normal = WriterState { escape_pending: false, ..s };
        lemma_layout_keeps_normal(normal, '\\');
        let first = normal.layout('\\');
        if first.result is Ok {
            lemma_tab_from_normal(first.state);
        }
    } else {
        lemma_tab_from_normal(s);
    }
}

/// Where the next glyph would reach the right border, it is drawn at the
/// start of the next line, and the cursor goes on from there.
pub proof fn law_wrap(s: WriterState, c: char)
    requires
        !s.escape_pending,
        is_glyph_char(c),
        c != '\\',
        s.x_pos + CHAR_RASTER_WIDTH >= s.info.width,
    ensures
        glyph_cells(c) matches Some(cells) ==> {
            let after = s.step(c).state;
            let line = clamped(s.y_pos + LINE_HEIGHT);
            &&& s.step(c).result is Ok
            &&& after.buffer == draw_glyph(
                s.buffer,
                s.info,
                BORDER_PADDING as int,
                line,
                cells,
                s.current_color,
            )
            &&& after.x_pos == BORDER_PADDING + CHAR_RASTER_WIDTH + LETTER_SPACING
            &&& after.y_pos == line
        },
{
}

/// Writing a text in two parts is writing it whole: what the first part
/// leaves behind, a pending escape included, is where the second goes on.
pub proof fn law_written_in_parts(s: WriterState, head: Seq<char>, tail: Seq<char>)
    ensures
        s.written(head + tail) == s.written(head).and_written(tail),
{
    lemma_run_in_parts(s, head, tail, tail.len() as int);
    assert((head + tail).len() == head.len() + tail.len());
}

/// The effect of the first `n` characters depends on those characters only.
proof fn lemma_run_of_prefix(s: WriterState, text: Seq<char>, other: Seq<char>, n: int)
    requires
        n <= text.len(),
        n <= other.len(),
        forall|i: int| 0 <= i < n ==> text[i] == other[i],
    ensures
        s.run(text, n) == s.run(other, n),
    decreases n,
{
    if n > 0 {
        lemma_run_of_prefix(s, text, other, n - 1);
    }
}

proof fn lemma_run_in_parts(s: WriterState, head: Seq<char>, tail: Seq<char>, n: int)
    requires
        0 <= n <= tail.len(),
    ensures
        s.run(head + tail, head.len() + n) == if s.written(head).result is Err {
            s.written(head)
        } else {
            s.written(head).state.run(tail, n)
        },
    decreases n,
{
    if n == 0 {
        lemma_run_of_prefix(s, head + tail, head, head.len() as int);
    } else {
        lemma_run_in_parts(s, head, tail, n - 1);
        assert((head + tail)[head.len() + n - 1] == tail[n - 1]);
    }
}

/// The second state is a well-formed state of the same surface as the
/// first: same geometry, same buffer length, same default color.
pub open spec fn same_surface(before: WriterState, after: WriterState) -> bool {
    &&& after.wf()
    &&& after.info == before.info
    &&& after.buffer.len() == before.buffer.len()
    &&& after.default_color == before.default_color
}

/// Whatever character is submitted, and whether it succeeds or fails, the
/// writer stays well formed on the same surface.
pub proof fn law_step_keeps_surface(s: WriterState, c: char)
    requires
        s.wf(),
    ensures
        same_surface(s, s.step(c).state),
{
    if s.escape_pending {
        let normal = WriterState { escape_pending: false, ..s };
        if c != 'c' {
            lemma_layout_keeps_surface(normal, '\\');
            if normal.layout('\\').result is Ok {
                lemma_layout_keeps_surface(normal.layout('\\').state, c);
            }
        }
    } else if c != '\\' {
        lemma_layout_keeps_surface(s, c);
    }
}

/// Whatever text is written, the writer stays well formed on the same surface.
pub proof fn law_written_keeps_surface(s: WriterState, text: Seq<char>)
    requires
        s.wf(),
    ensures
        same_surface(s, s.written(text).state),
{
    lemma_run_keeps_surface(s, text, text.len() as int);
}

proof fn lemma_run_keeps_surface(s: WriterState, text: Seq<char>, n: int)
    requires
        s.wf(),
    ensures
        same_surface(s, s.run(text, n).state),
    decreases n,
{
    if n > 0 {
        lemma_run_keeps_surface(s, text, n - 1);
        let before = s.run(text, n - 1);
        if before.result is Ok {
            law_step_keeps_surface(before.state, text[n - 1]);
        }
    }
}

proof fn lemma_rendered_keeps_surface(s: WriterState, cells: Seq<Seq<u8>>, width: int, color: Color)
    requires
        s.wf(),
        0 <= width,
    ensures
        same_surface(s, s.rendered(cells, width, color)),
{
    law_draw_glyph_keeps_padding(s.buffer, s.info, s.x_pos, s.y_pos, cells, color);
}

proof fn lemma_space_keeps_surface(s: WriterState)
    requires
        s.wf(),
    ensures
        same_surface(s, s.space().state),
{
    if let Some(cells) = glyph_cells(' ') {
        let reset = WriterState { current_color: s.default_color, ..s };
        lemma_rendered_keeps_surface(reset, cells, CHAR_RASTER_WIDTH as int, reset.current_color);
    }
}

proof fn lemma_spaces_keep_surface(s: WriterState, n: int)
    requires
        s.wf(),
    ensures
        same_surface(s, s.spaces(n).state),
    decreases n,
{
    if n > 0 {
        lemma_spaces_keep_surface(s, n - 1);
        if s.spaces(n - 1).result is Ok {
            lemma_space_keeps_surface(s.spaces(n - 1).state);
        }
    }
}

proof fn lemma_layout_keeps_surface(s: WriterState, c: char)
    requires
        s.wf(),
    ensures
        same_surface(s, s.layout(c).state),
{
    if c == ' ' {
        lemma_space_keeps_surface(s);
    } else if c == '\t' {
        lemma_spaces_keep_surface(s, crate::model::TAB_SPACES as int);
    } else if c != '\n' && c != '\r' {
        if let Some(cells) = glyph_cells(c) {
            lemma_rendered_keeps_surface(
                s.wrapped(CHAR_RASTER_WIDTH as int),
                cells,
                CHAR_RASTER_WIDTH as int,
                s.current_color,
            );
        }
    }
}

/// The layout engine never leaves an escape pending that was not pending.
pub proof fn lemma_layout_keeps_normal(s: WriterState, c: char)
    requires
        !s.escape_pending,
    ensures
        !s.layout(c).state.escape_pending,
{
    reveal_with_fuel(WriterState::spaces, 5);
}

/// In the normal state the four spaces of a tab are four submitted spaces.
proof fn lemma_tab_from_normal(s: WriterState)
    requires
        !s.escape_pending,
    ensures
        s.layout('\t') == s.layout(' ').and_step(' ').and_step(' ').and_step(' '),
        s.layout(' ') == s.step(' '),
{
    reveal_with_fuel(WriterState::spaces, 5);
    let a = s.space();
    if a.result is Ok {
        let b = a.state.space();
        if b.result is Ok {
            let c = b.state.space();
        }
    }
}

} // verus!

//! The mathematical model of the writer: its state as plain values, and the
//! effect of every operation as a function on that state.

use vstd::prelude::*;
use crate::error::WriterError;
use crate::font::{glyph_cells, CHAR_RASTER_HEIGHT, CHAR_RASTER_WIDTH};
use crate::surface::{encoded_pixel, overwritten, padding_clear, Color, SurfaceInfo};

verus! {

/// Additional vertical space between lines.
pub const LINE_SPACING: usize = 2;

/// Additional horizontal space between characters.
pub const LETTER_SPACING: usize = 0;

/// Distance kept between the border of the surface and the text.
pub const BORDER_PADDING: usize = 1;

/// Vertical distance between the tops of two consecutive lines.
pub const LINE_HEIGHT: usize = CHAR_RASTER_HEIGHT + LINE_SPACING;

/// Number of spaces that a tab expands to.
pub const TAB_SPACES: usize = 4;

/// The color in which text is drawn unless an escape sequence changes it: white.
pub open spec fn default_color() -> Color {
    Color { red: 255, green: 255, blue: 255 }
}

/// The color that the escape sequence `\c` switches to: blue.
pub open spec fn applied_color() -> Color {
    Color { red: 0, green: 0, blue: 255 }
}

/// A cursor coordinate, held at the largest value the machine can hold.
pub open spec fn clamped(n: int) -> int {
    if n > usize::MAX {
        usize::MAX as int
    } else {
        n
    }
}

/// The buffer after the pixel at `(x, y)` has been set to a color. Outside
/// the visible area nothing changes.
pub open spec fn put_pixel(buffer: Seq<u8>, info: SurfaceInfo, x: int, y: int, color: Color) -> Seq<
    u8,
> {
    if info.contains(x, y) {
        overwritten(
            buffer,
            info.byte_offset(x, y),
            encoded_pixel(info.pixel_format, color).take(info.bytes_per_pixel as int),
        )
    } else {
        buffer
    }
}

/// The buffer after the lit cells among the first `n` cells of one glyph row
/// have been drawn, the row's first cell standing at `(x, y)`.
pub open spec fn draw_cells(
    buffer: Seq<u8>,
    info: SurfaceInfo,
    x: int,
    y: int,
    row: Seq<u8>,
    n: int,
    color: Color,
) -> Seq<u8>
    decreases n,
{
    if n <= 0 {
        buffer
    } else {
        let before = draw_cells(buffer, info, x, y, row, n - 1, color);
        if row[n - 1] > 0 {
            put_pixel(before, info, x + n - 1, y, color)
        } else {
            before
        }
    }
}

/// The buffer after the first `n` rows of a glyph have been drawn, the
/// glyph's top-left cell standing at `(x, y)`.
pub open spec fn draw_rows(
    buffer: Seq<u8>,
    info: SurfaceInfo,
    x: int,
    y: int,
    cells: Seq<Seq<u8>>,
    n: int,
    color: Color,
) -> Seq<u8>
    decreases n,
{
    if n <= 0 {
        buffer
    } else {
        let before = draw_rows(buffer, info, x, y, cells, n - 1, color);
        draw_cells(before, info, x, y + n - 1, cells[n - 1], cells[n - 1].len() as int, color)
    }
}

/// The buffer after every lit cell of a glyph has been drawn at `(x, y)`.
pub open spec fn draw_glyph(
    buffer: Seq<u8>,
    info: SurfaceInfo,
    x: int,
    y: int,
    cells: Seq<Seq<u8>>,
    color: Color,
) -> Seq<u8> {
    draw_rows(buffer, info, x, y, cells, cells.len() as int, color)
}

/// Everything that determines what the writer does next.
pub struct WriterState {
    /// The bytes of the surface.
    pub buffer: Seq<u8>,
    /// The geometry of the surface.
    pub info: SurfaceInfo,
    /// Horizontal coordinate of the next glyph's top-left pixel.
    pub x_pos: int,
    /// Vertical coordinate of the next glyph's top-left pixel.
    pub y_pos: int,
    /// The color in which glyphs are drawn.
    pub current_color: Color,
    /// The color that a space returns to.
    pub default_color: Color,
    /// A backslash has been consumed and the character after it has not.
    pub escape_pending: bool,
}

/// The state that an operation leaves behind, and whether it succeeded.
pub struct Outcome {
    pub state: WriterState,
    pub result: Result<(), WriterError>,
}

impl WriterState {
    /// The geometry fits the buffer, the padding bytes are zero and the
    /// cursor is a machine coordinate.
    pub open spec fn wf(self) -> bool {
        &&& self.info.fits(self.buffer.len() as int)
        &&& padding_clear(self.buffer, self.info)
        &&& 0 <= self.x_pos <= usize::MAX
        &&& 0 <= self.y_pos <= usize::MAX
    }

    /// The state of a writer that has just been built over a buffer.
    pub open spec fn initial(buffer: Seq<u8>, info: SurfaceInfo) -> WriterState {
        WriterState {
            buffer: Seq::new(buffer.len(), |i: int| 0u8),
            info,
            x_pos: BORDER_PADDING as int,
            y_pos: BORDER_PADDING as int,
            current_color: default_color(),
            default_color: default_color(),
            escape_pending: false,
        }
    }

    /// All bytes zero, cursor at the padding offset; colors are kept.
    pub open spec fn cleared(self) -> WriterState {
        WriterState {
            buffer: Seq::new(self.buffer.len(), |i: int| 0u8),
            x_pos: BORDER_PADDING as int,
            y_pos: BORDER_PADDING as int,
            ..self
        }
    }

    /// The cursor moved to the start of the current line.
    pub open spec fn carriage_return(self) -> WriterState {
        WriterState { x_pos: BORDER_PADDING as int, ..self }
    }

    /// The cursor moved to the start of the next line.
    pub open spec fn newline(self) -> WriterState {
        WriterState {
            x_pos: BORDER_PADDING as int,
            y_pos: clamped(self.y_pos + LINE_HEIGHT),
            ..self
        }
    }

    /// The cursor placed at a coordinate.
    pub open spec fn with_cursor(self, x: int, y: int) -> WriterState {
        WriterState { x_pos: x, y_pos: y, ..self }
    }

    /// One pixel set; the cursor stays.
    pub open spec fn with_pixel(self, x: int, y: int, color: Color) -> WriterState {
        WriterState { buffer: put_pixel(self.buffer, self.info, x, y, color), ..self }
    }

    /// A glyph drawn at the cursor, and the cursor advanced by the glyph's
    /// width and the letter spacing.
    pub open spec fn rendered(self, cells: Seq<Seq<u8>>, width: int, color: Color) -> WriterState {
        WriterState {
            buffer: draw_glyph(self.buffer, self.info, self.x_pos, self.y_pos, cells, color),
            x_pos: clamped(self.x_pos + width + LETTER_SPACING),
            ..self
        }
    }

    /// Where the next glyph starts: on the next line if it would reach the
    /// right border, else at the cursor.
    pub open spec fn wrapped(self, width: int) -> WriterState {
        if self.x_pos + width >= self.info.width {
            self.newline()
        } else {
            self
        }
    }

    /// A space: the color returns to the default, then the space glyph is
    /// drawn in it.
    pub open spec fn space(self) -> Outcome {
        match glyph_cells(' ') {
            Some(cells) => {
                let reset = WriterState { current_color: self.default_color, ..self };
                Outcome::done(reset.rendered(cells, CHAR_RASTER_WIDTH as int, reset.current_color))
            },
            None => Outcome::failed(self, WriterError::MissingGlyph),
        }
    }

    /// `n` spaces, one after the other; the first failure ends them.
    pub open spec fn spaces(self, n: int) -> Outcome
        decreases n,
    {
        if n <= 0 {
            Outcome::done(self)
        } else {
            self.spaces(n - 1).and_space()
        }
    }

    /// A character that is drawn as a glyph, after a line wrap where needed.
    pub open spec fn glyph(self, c: char) -> Outcome {
        match glyph_cells(c) {
            Some(cells) => Outcome::done(
                self.wrapped(CHAR_RASTER_WIDTH as int).rendered(
                    cells,
                    CHAR_RASTER_WIDTH as int,
                    self.current_color,
                ),
            ),
            None => Outcome::failed(self, WriterError::MissingGlyph),
        }
    }

    /// The layout engine: the effect of one character that is not part of an
    /// escape sequence.
    pub open spec fn layout(self, c: char) -> Outcome {
        if c == ' ' {
            self.space()
        } else if c == '\n' {
            Outcome::done(self.newline())
        } else if c == '\t' {
            self.spaces(TAB_SPACES as int)
        } else if c == '\r' {
            Outcome::done(self.carriage_return())
        } else {
            self.glyph(c)
        }
    }

    /// The escape state machine in front of the layout engine: the effect of
    /// one character submitted by the caller.
    pub open spec fn step(self, c: char) -> Outcome {
        if self.escape_pending {
            let normal = WriterState { escape_pending: false, ..self };
            if c == 'c' {
                Outcome::done(WriterState { current_color: applied_color(), ..normal })
            } else {
                normal.layout('\\').and_layout(c)
            }
        } else if c == '\\' {
            Outcome::done(WriterState { escape_pending: true, ..self })
        } else {
            self.layout(c)
        }
    }

    /// The effect of the first `n` characters of a text, submitted in order;
    /// the first failure ends it.
    pub open spec fn run(self, text: Seq<char>, n: int) -> Outcome
        decreases n,
    {
        if n <= 0 {
            Outcome::done(self)
        } else {
            self.run(text, n - 1).and_step(text[n - 1])
        }
    }

    /// The effect of a whole text.
    pub open spec fn written(self, text: Seq<char>) -> Outcome {
        self.run(text, text.len() as int)
    }
}

impl Outcome {
    /// Success with the given state.
    pub open spec fn done(state: WriterState) -> Outcome {
        Outcome { state, result: Ok(()) }
    }

    /// Failure that leaves the given state.
    pub open spec fn failed(state: WriterState, error: WriterError) -> Outcome {
        Outcome { state, result: Err(error) }
    }

    /// Continues with a space unless a failure came before.
    pub open spec fn and_space(self) -> Outcome {
        if self.result is Err {
            self
        } else {
            self.state.space()
        }
    }

    /// Continues with the layout of a character unless a failure came before.
    pub open spec fn and_layout(self, c: char) -> Outcome {
        if self.result is Err {
            self
        } else {
            self.state.layout(c)
        }
    }

    /// Continues with a whole text unless a failure came before.
    pub open spec fn and_written(self, text: Seq<char>) -> Outcome {
        if self.result is Err {
            self
        } else {
            self.state.written(text)
        }
    }

    /// Continues with a submitted character unless a failure came before.
    pub open spec fn and_step(self, c: char) -> Outcome {
        if self.result is Err {
            self
        } else {
            self.state.step(c)
        }
    }
}

/// Once a space has failed, further spaces change nothing.
pub proof fn lemma_spaces_failure_lasts(s: WriterState, failed_at: int, n: int)
    requires
        0 <= failed_at <= n,
        s.spaces(failed_at).result is Err,
    ensures
        s.spaces(n) == s.spaces(failed_at),
    decreases n,
{
    if n > failed_at {
        lemma_spaces_failure_lasts(s, failed_at, n - 1);
    }
}

/// Once a character of a text has failed, the rest of the text changes nothing.
pub proof fn lemma_run_failure_lasts(s: WriterState, text: Seq<char>, failed_at: int, n: int)
    requires
        0 <= failed_at <= n,
        s.run(text, failed_at).result is Err,
    ensures
        s.run(text, n) == s.run(text, failed_at),
    decreases n,
{
    if n > failed_at {
        lemma_run_failure_lasts(s, text, failed_at, n - 1);
    }
}

} // verus!

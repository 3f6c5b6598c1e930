//! The framebuffer text writer.

use vstd::prelude::*;
use crate::error::WriterError;
use crate::font::{get_char_raster, Glyph};
use crate::model::{
    draw_cells, draw_rows, lemma_run_failure_lasts, lemma_spaces_failure_lasts, Outcome,
    WriterState, BORDER_PADDING, LETTER_SPACING, LINE_HEIGHT, TAB_SPACES,
};
use crate::pixels::law_put_pixel_keeps_padding;
use crate::surface::{
    encode_pixel, fill_zero, padding_clear, read_back, store_pixel, Color, SurfaceInfo,
};

verus! {

/// Writes text to a pixel-based framebuffer that it alone may change.
#[derive(Debug)]
pub struct FrameBufferWriter<'a> {
    framebuffer: &'a mut [u8],
    info: SurfaceInfo,
    x_pos: usize,
    y_pos: usize,
    current_color: Color,
    default_color: Color,
    processing_escape: bool,
}

impl<'a> View for FrameBufferWriter<'a> {
    type V = WriterState;

    closed spec fn view(&self) -> WriterState {
        WriterState {
            buffer: self.framebuffer@,
            info: self.info,
            x_pos: self.x_pos as int,
            y_pos: self.y_pos as int,
            current_color: self.current_color,
            default_color: self.default_color,
            escape_pending: self.processing_escape,
        }
    }
}

impl<'a> FrameBufferWriter<'a> {
    /// What holds of every writer: its geometry fits its buffer, and the
    /// padding bytes of the buffer are zero.
    #[verifier::type_invariant]
    spec fn well_formed(&self) -> bool {
        &&& self.info.fits(self.framebuffer@.len() as int)
        &&& padding_clear(self.framebuffer@, self.info)
    }

    /// Creates a writer over the given byte region, clears the region and
    /// puts the cursor at the padding offset. A geometry that cannot be drawn
    /// on is refused, and the region is then left as it was.
    pub fn new(framebuffer: &'a mut [u8], info: SurfaceInfo) -> (r: Result<Self, WriterError>)
        ensures
            match r {
                Ok(writer) => {
                    &&& info.fits(old(framebuffer)@.len() as int)
                    &&& writer@ == WriterState::initial(old(framebuffer)@, info)
                    &&& writer@.wf()
                },
                Err(e) => {
                    &&& info.validate(old(framebuffer)@.len() as int) == Err::<(), WriterError>(e)
                    &&& final(framebuffer)@ == old(framebuffer)@
                },
            },
    {
        match info.check(framebuffer.len()) {
            Err(e) => {
                return Err(e);
            },
            Ok(()) => {},
        }
        let len = framebuffer.len();
        fill_zero(framebuffer, len);
        let white = Color { red: 255, green: 255, blue: 255 };
        Ok(
            FrameBufferWriter {
                framebuffer,
                info,
                x_pos: BORDER_PADDING,
                y_pos: BORDER_PADDING,
                current_color: white,
                default_color: white,
                processing_escape: false,
            },
        )
    }

    /// Erases the whole buffer and returns the cursor to the padding offset.
    /// The colors are kept.
    pub fn clear(&mut self)
        ensures
            final(self)@ == old(self)@.cleared(),
    {
        proof {
            use_type_invariant(&*self);
        }
        self.x_pos = BORDER_PADDING;
        self.y_pos = BORDER_PADDING;
        let len = self.framebuffer.len();
        fill_zero(self.framebuffer, len);
    }

    /// Visible width of the surface in pixels.
    pub fn width(&self) -> (w: usize)
        ensures
            w == self@.info.width,
    {
        self.info.width
    }

    /// Visible height of the surface in pixels.
    pub fn height(&self) -> (h: usize)
        ensures
            h == self@.info.height,
    {
        self.info.height
    }

    /// The geometry of the surface.
    pub fn info(&self) -> (info: SurfaceInfo)
        ensures
            info == self@.info,
            self@.wf(),
    {
        proof {
            use_type_invariant(self);
        }
        self.info
    }

    /// The coordinate of the next glyph's top-left pixel, as `(x, y)`.
    pub fn cursor(&self) -> (at: (usize, usize))
        ensures
            at.0 == self@.x_pos,
            at.1 == self@.y_pos,
    {
        (self.x_pos, self.y_pos)
    }

    /// The color in which glyphs are drawn.
    pub fn current_color(&self) -> (color: Color)
        ensures
            color == self@.current_color,
    {
        self.current_color
    }

    /// The color that a space returns to.
    pub fn default_color(&self) -> (color: Color)
        ensures
            color == self@.default_color,
    {
        self.default_color
    }

    /// The bytes of the surface.
    pub fn buffer(&self) -> (bytes: &[u8])
        ensures
            bytes@ == self@.buffer,
    {
        self.framebuffer
    }

    /// Places the cursor at `(x, y)` if that coordinate lies in the visible
    /// area; otherwise refuses and changes nothing.
    pub fn set_cursor_position(&mut self, x: usize, y: usize) -> (r: Result<(), WriterError>)
        ensures
            old(self)@.info.contains(x as int, y as int) ==> r is Ok && final(self)@ == old(
                self,
            )@.with_cursor(x as int, y as int),
            !old(self)@.info.contains(x as int, y as int) ==> r == Err::<(), WriterError>(
                WriterError::CursorOutOfBounds,
            ) && final(self)@ == old(self)@,
    {
        proof {
            use_type_invariant(&*self);
        }
        if x < self.width() && y < self.height() {
            self.x_pos = x;
            self.y_pos = y;
            Ok(())
        } else {
            Err(WriterError::CursorOutOfBounds)
        }
    }

    /// Moves the cursor to the start of the next line.
    pub fn newline(&mut self)
        ensures
            final(self)@ == old(self)@.newline(),
    {
        proof {
            use_type_invariant(&*self);
        }
        self.y_pos = self.y_pos.saturating_add(LINE_HEIGHT);
        self.carriage_return();
    }

    /// Moves the cursor to the start of the current line.
    pub fn carriage_return(&mut self)
        ensures
            final(self)@ == old(self)@.carriage_return(),
    {
        proof {
            use_type_invariant(&*self);
        }
        self.x_pos = BORDER_PADDING;
    }

    /// Sets the pixel at `(x, y)` to a color. A coordinate outside the
    /// visible area is ignored.
    pub fn write_pixel(&mut self, x: usize, y: usize, color: Color)
        ensures
            final(self)@ == old(self)@.with_pixel(x as int, y as int, color),
    {
        proof {
            use_type_invariant(&*self);
        }
        let offset = match self.info.locate(x, y, self.framebuffer.len()) {
            Some(offset) => offset,
            None => {
                return ;
            },
        };
        // A writer's pixel format always has an encoding.
        let bytes = match encode_pixel(self.info.pixel_format, color) {
            Ok(bytes) => bytes,
            Err(_) => {
                return ;
            },
        };
        proof {
            law_put_pixel_keeps_padding(self.framebuffer@, self.info, x as int, y as int, color);
        }
        store_pixel(self.framebuffer, offset, &bytes, self.info.bytes_per_pixel);
        read_back(self.framebuffer, offset);
    }

    /// Draws every lit cell of a glyph, its top-left cell at the cursor, and
    /// advances the cursor by the glyph's width and the letter spacing. Cells
    /// that fall outside the visible area are dropped.
    pub fn write_rendered_char(&mut self, glyph: &Glyph, color: Color)
        ensures
            final(self)@ == old(self)@.rendered(glyph.cells(), glyph.width as int, color),
    {
        let ghost start = self@;
        let ghost cells = glyph.cells();
        let rows = glyph.rows;
        let mut r: usize = 0;
        while r < rows.len()
            invariant
                r <= rows@.len(),
                rows == glyph.rows,
                cells == glyph.cells(),
                self@ == (WriterState {
                    buffer: draw_rows(
                        start.buffer,
                        start.info,
                        start.x_pos,
                        start.y_pos,
                        cells,
                        r as int,
                        color,
                    ),
                    ..start
                }),
            decreases rows@.len() - r,
        {
            let row = rows[r];
            let ghost above = self@.buffer;
            let mut c: usize = 0;
            while c < row.len()
                invariant
                    c <= row@.len(),
                    r < rows@.len() == cells.len(),
                    row@ == cells[r as int],
                    self@ == (WriterState {
                        buffer: draw_cells(
                            above,
                            start.info,
                            start.x_pos,
                            start.y_pos + r,
                            row@,
                            c as int,
                            color,
                        ),
                        ..start
                    }),
                decreases row@.len() - c,
            {
                if row[c] > 0 {
                    match (self.x_pos.checked_add(c), self.y_pos.checked_add(r)) {
                        (Some(x), Some(y)) => {
                            self.write_pixel(x, y, color);
                        },
                        _ => {},
                    }
                }
                c += 1;
            }
            r += 1;
        }
        proof {
            use_type_invariant(&*self);
        }
        self.x_pos = self.x_pos.saturating_add(glyph.width).saturating_add(LETTER_SPACING);
    }

    /// Draws a glyph in the current color where the next glyph belongs: at
    /// the cursor, or at the start of the next line if the glyph would reach
    /// the right border.
    pub fn write_glyph(&mut self, glyph: &Glyph)
        ensures
            final(self)@ == old(self)@.wrapped(glyph.width as int).rendered(
                glyph.cells(),
                glyph.width as int,
                old(self)@.current_color,
            ),
    {
        let reaches_border = match self.x_pos.checked_add(glyph.width) {
            Some(new_xpos) => new_xpos >= self.width(),
            None => true,
        };
        if reaches_border {
            self.newline();
        }
        let color = self.current_color;
        self.write_rendered_char(glyph, color);
    }

    /// Handles a space: returns to the default color and draws the space
    /// glyph in it.
    pub fn write_space(&mut self) -> (r: Result<(), WriterError>)
        ensures
            old(self)@.space() == (Outcome { state: final(self)@, result: r }),
    {
        let glyph = match get_char_raster(' ') {
            Ok(glyph) => glyph,
            Err(e) => {
                return Err(e);
            },
        };
        proof {
            use_type_invariant(&*self);
        }
        self.current_color = self.default_color;
        let color = self.current_color;
        self.write_rendered_char(&glyph, color);
        Ok(())
    }

    /// The layout engine: handles one character that is not part of an
    /// escape sequence. On failure nothing of this character has been drawn.
    pub fn layout_char(&mut self, c: char) -> (r: Result<(), WriterError>)
        ensures
            old(self)@.layout(c) == (Outcome { state: final(self)@, result: r }),
    {
        if c == ' ' {
            self.write_space()
        } else if c == '\n' {
            self.newline();
            Ok(())
        } else if c == '\t' {
            let mut done: usize = 0;
            while done < TAB_SPACES
                invariant
                    c == '\t',
                    done <= TAB_SPACES,
                    old(self)@.spaces(done as int) == Outcome::done(self@),
                decreases TAB_SPACES - done,
            {
                match self.write_space() {
                    Ok(()) => {},
                    Err(e) => {
                        proof {
                            let first = old(self)@;
                            assert(first.spaces(done + 1) == first.spaces(done as int).and_space());
                            lemma_spaces_failure_lasts(first, done + 1, TAB_SPACES as int);
                        }
                        return Err(e);
                    },
                }
                done += 1;
            }
            Ok(())
        } else if c == '\r' {
            self.carriage_return();
            Ok(())
        } else {
            let glyph = match get_char_raster(c) {
                Ok(glyph) => glyph,
                Err(e) => {
                    return Err(e);
                },
            };
            self.write_glyph(&glyph);
            Ok(())
        }
    }

    /// Handles one submitted character: the escape state machine, and behind
    /// it the layout engine. A backslash is held back; `c` after it switches
    /// to the applied color; any other character after it has the backslash
    /// and itself laid out as ordinary characters.
    pub fn write_char(&mut self, c: char) -> (r: Result<(), WriterError>)
        ensures
            old(self)@.step(c) == (Outcome { state: final(self)@, result: r }),
    {
        proof {
            use_type_invariant(&*self);
        }
        if self.processing_escape {
            self.processing_escape = false;
            if c == 'c' {
                self.current_color = Color { red: 0, green: 0, blue: 255 };
                Ok(())
            } else {
                match self.layout_char('\\') {
                    Ok(()) => self.layout_char(c),
                    Err(e) => Err(e),
                }
            }
        } else if c == '\\' {
            self.processing_escape = true;
            Ok(())
        } else {
            self.layout_char(c)
        }
    }

    /// Writes a text character by character and stops at the first character
    /// that fails.
    pub fn write_str(&mut self, s: &str) -> (r: Result<(), WriterError>)
        ensures
            old(self)@.written(s@) == (Outcome { state: final(self)@, result: r }),
    {
        let ghost first = self@;
        for c in it: s.chars()
            invariant
                it.seq() == s@,
                first == old(self)@,
                first.run(s@, it.index()) == Outcome::done(self@),
        {
            match self.write_char(c) {
                Ok(()) => {},
                Err(e) => {
                    proof {
                        let n = it.index();
                        assert(first.run(s@, n + 1) == first.run(s@, n).and_step(s@[n]));
                        lemma_run_failure_lasts(first, s@, n + 1, s@.len() as int);
                    }
                    return Err(e);
                },
            }
        }
        Ok(())
    }
}

} // verus!

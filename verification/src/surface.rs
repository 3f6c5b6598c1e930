//! Geometry of a framebuffer surface and the byte encoding of one pixel.

use vstd::prelude::*;
use crate::error::WriterError;
use volatile::Volatile;

verus! {

/// Number of bytes in an encoded pixel before it is cut to `bytes_per_pixel`.
pub const ENCODED_PIXEL_LEN: usize = 4;

/// Red values above this threshold are lit on a single-channel surface.
pub const GRAY_THRESHOLD: u8 = 128;

/// A three-channel color.
#[derive(Clone, Copy, Debug, PartialEq, Eq, Structural)]
pub struct Color {
    pub red: u8,
    pub green: u8,
    pub blue: u8,
}

/// Byte order and channel convention of the pixels of a surface.
#[derive(Clone, Copy, Debug, PartialEq, Eq, Structural)]
pub enum PixelFormat {
    /// One byte red, then green, then blue.
    Rgb,
    /// One byte blue, then green, then red.
    Bgr,
    /// A single grayscale byte.
    U8,
    /// Any other layout; it cannot be rendered to.
    Unknown,
}

/// The bytes that one pixel of the given color occupies, before truncation
/// to the surface's pixel size. Positions past the channels are zero.
pub open spec fn encoded_pixel(format: PixelFormat, color: Color) -> Seq<u8> {
    match format {
        PixelFormat::Rgb => seq![color.red, color.green, color.blue, 0u8],
        PixelFormat::Bgr => seq![color.blue, color.green, color.red, 0u8],
        PixelFormat::U8 => seq![if color.red > GRAY_THRESHOLD { 0xffu8 } else { 0u8 }, 0u8, 0u8, 0u8],
        PixelFormat::Unknown => seq![0u8, 0u8, 0u8, 0u8],
    }
}

/// Number of leading bytes of an encoded pixel that carry a channel; the
/// bytes after them are padding.
pub open spec fn channel_count(format: PixelFormat) -> int {
    match format {
        PixelFormat::Rgb => 3,
        PixelFormat::Bgr => 3,
        PixelFormat::U8 => 1,
        PixelFormat::Unknown => 0,
    }
}

/// Every byte of the buffer that stands at a padding position of its pixel
/// slot is zero.
pub open spec fn padding_clear(buffer: Seq<u8>, info: SurfaceInfo) -> bool {
    forall|i: int|
        0 <= i < buffer.len() && #[trigger] info.slot_channel(i) >= channel_count(
            info.pixel_format,
        ) ==> buffer[i] == 0u8
}

/// Encodes a color for a pixel format. The format `Unknown` has no encoding.
pub fn encode_pixel(format: PixelFormat, color: Color) -> (r: Result<[u8; 4], WriterError>)
    ensures
        format == PixelFormat::Unknown <==> r is Err,
        r matches Err(e) ==> e == WriterError::UnsupportedPixelFormat,
        r matches Ok(bytes) ==> bytes@ == encoded_pixel(format, color),
{
    match format {
        PixelFormat::Rgb => {
            let bytes: [u8; 4] = [color.red, color.green, color.blue, 0];
            assert(bytes@ =~= encoded_pixel(format, color));
            Ok(bytes)
        },
        PixelFormat::Bgr => {
            let bytes: [u8; 4] = [color.blue, color.green, color.red, 0];
            assert(bytes@ =~= encoded_pixel(format, color));
            Ok(bytes)
        },
        PixelFormat::U8 => {
            let level: u8 = if color.red > GRAY_THRESHOLD { 0xff } else { 0 };
            let bytes: [u8; 4] = [level, 0, 0, 0];
            assert(bytes@ =~= encoded_pixel(format, color));
            Ok(bytes)
        },
        PixelFormat::Unknown => Err(WriterError::UnsupportedPixelFormat),
    }
}

/// Geometry of a surface: what the writer needs to know to find a pixel's bytes.
#[derive(Clone, Copy, Debug, PartialEq, Eq, Structural)]
pub struct SurfaceInfo {
    /// Visible width in pixels.
    pub width: usize,
    /// Visible height in pixels.
    pub height: usize,
    /// Pixels per row as laid out in memory; at least `width`.
    pub stride: usize,
    /// Bytes that one pixel occupies.
    pub bytes_per_pixel: usize,
    /// Byte order of the channels.
    pub pixel_format: PixelFormat,
}

impl SurfaceInfo {
    /// Bytes that the rows of the surface occupy.
    pub open spec fn required_len(self) -> int {
        self.height * self.stride * self.bytes_per_pixel
    }

    /// Whether a byte region of the given length can be drawn on with this
    /// geometry, and if not, why.
    pub open spec fn validate(self, buffer_len: int) -> Result<(), WriterError> {
        if self.pixel_format == PixelFormat::Unknown {
            Err(WriterError::UnsupportedPixelFormat)
        } else if self.bytes_per_pixel < 1 || self.bytes_per_pixel > ENCODED_PIXEL_LEN
            || self.width > self.stride {
            Err(WriterError::InvalidGeometry)
        } else if self.required_len() > buffer_len {
            Err(WriterError::BufferTooSmall)
        } else {
            Ok(())
        }
    }

    /// The geometry is drawable on a region of the given length.
    pub open spec fn fits(self, buffer_len: int) -> bool {
        self.validate(buffer_len) is Ok
    }

    /// The coordinate lies in the visible area.
    pub open spec fn contains(self, x: int, y: int) -> bool {
        0 <= x < self.width && 0 <= y < self.height
    }

    /// Index of the first byte of the pixel at a coordinate.
    pub open spec fn byte_offset(self, x: int, y: int) -> int {
        (y * self.stride + x) * self.bytes_per_pixel
    }

    /// Horizontal coordinate of the pixel slot that holds byte `i`.
    pub open spec fn slot_x(self, i: int) -> int {
        (i / (self.bytes_per_pixel as int)) % (self.stride as int)
    }

    /// Vertical coordinate of the pixel slot that holds byte `i`.
    pub open spec fn slot_y(self, i: int) -> int {
        (i / (self.bytes_per_pixel as int)) / (self.stride as int)
    }

    /// Position of byte `i` within its pixel slot.
    pub open spec fn slot_channel(self, i: int) -> int {
        i % (self.bytes_per_pixel as int)
    }

    /// Checks the geometry against the length of the byte region it describes.
    pub fn check(&self, buffer_len: usize) -> (r: Result<(), WriterError>)
        ensures
            r == self.validate(buffer_len as int),
    {
        match self.pixel_format {
            PixelFormat::Unknown => {
                return Err(WriterError::UnsupportedPixelFormat);
            },
            _ => {},
        }
        if self.bytes_per_pixel < 1 || self.bytes_per_pixel > ENCODED_PIXEL_LEN || self.width
            > self.stride {
            return Err(WriterError::InvalidGeometry);
        }
        let slots = match self.height.checked_mul(self.stride) {
            Some(n) => n,
            None => {
                assert(self.required_len() > buffer_len) by (nonlinear_arith)
                    requires
                        self.height * self.stride > usize::MAX,
                        self.bytes_per_pixel >= 1,
                        buffer_len <= usize::MAX,
                        self.required_len() == self.height * self.stride * self.bytes_per_pixel,
                ;
                return Err(WriterError::BufferTooSmall);
            },
        };
        match slots.checked_mul(self.bytes_per_pixel) {
            Some(bytes) => {
                if bytes <= buffer_len {
                    Ok(())
                } else {
                    Err(WriterError::BufferTooSmall)
                }
            },
            None => Err(WriterError::BufferTooSmall),
        }
    }

    /// Index of the first byte of the pixel at a coordinate of the visible
    /// area; `None` for a coordinate outside it.
    pub fn locate(&self, x: usize, y: usize, buffer_len: usize) -> (r: Option<usize>)
        requires
            self.fits(buffer_len as int),
        ensures
            r is Some <==> self.contains(x as int, y as int),
            r matches Some(offset) ==> offset == self.byte_offset(x as int, y as int) && offset
                + self.bytes_per_pixel <= buffer_len,
    {
        if x >= self.width || y >= self.height {
            return None;
        }
        proof {
            lemma_pixel_in_buffer(*self, x as int, y as int);
        }
        let pixel_index = y * self.stride + x;
        Some(pixel_index * self.bytes_per_pixel)
    }
}

/// The bytes `[offset, offset + bytes.len())` of a buffer replaced by `bytes`.
pub open spec fn overwritten(buffer: Seq<u8>, offset: int, bytes: Seq<u8>) -> Seq<u8> {
    Seq::new(
        buffer.len(),
        |i: int|
            if offset <= i < offset + bytes.len() {
                bytes[i - offset]
            } else {
                buffer[i]
            },
    )
}

/// Copies the first `count` bytes of an encoded pixel into the buffer at `offset`.
pub fn store_pixel(buffer: &mut [u8], offset: usize, bytes: &[u8; 4], count: usize)
    requires
        count <= ENCODED_PIXEL_LEN,
        offset + count <= old(buffer)@.len(),
    ensures
        final(buffer)@ == overwritten(old(buffer)@, offset as int, bytes@.take(count as int)),
    no_unwind
{
    proof {
        vstd::slice::axiom_spec_len(&*buffer);
    }
    let mut k: usize = 0;
    while k < count
        invariant
            k <= count <= ENCODED_PIXEL_LEN,
            offset + count <= buffer@.len() <= usize::MAX,
            buffer@ == overwritten(old(buffer)@, offset as int, bytes@.take(k as int)),
        decreases count - k,
    {
        buffer[offset + k] = bytes[k];
        k += 1;
    }
}

/// Sets every byte of the buffer, whose length is `len`, to zero.
pub(crate) fn fill_zero(buffer: &mut [u8], len: usize)
    requires
        len == old(buffer)@.len(),
    ensures
        final(buffer)@ == Seq::new(old(buffer)@.len(), |i: int| 0u8),
    no_unwind
{
    let mut i: usize = 0;
    while i < len
        invariant
            i <= len == buffer@.len() == old(buffer)@.len(),
            forall|j: int| 0 <= j < i ==> buffer@[j] == 0u8,
        decreases len - i,
    {
        buffer[i] = 0;
        i += 1;
    }
    assert(buffer@ =~= Seq::new(old(buffer)@.len(), |i: int| 0u8));
}

/// Reads one byte of the buffer back with `volatile::Volatile::read`, so that
/// the stores before it reach memory at once and are not removed as dead.
/// Trusted: the read changes nothing that the library can see; the value read
/// is discarded and nothing is claimed of it.
#[verifier::external_body]
pub(crate) fn read_back(buffer: &[u8], offset: usize)
    requires
        offset < buffer@.len(),
{
    let _ = Volatile::new_read_only(&buffer[offset]).read();
}

/// Every pixel of the visible area lies within the bytes that the geometry requires.
pub proof fn lemma_pixel_in_buffer(info: SurfaceInfo, x: int, y: int)
    requires
        info.width <= info.stride,
        info.contains(x, y),
    ensures
        0 <= y * info.stride <= y * info.stride + x,
        0 <= info.byte_offset(x, y),
        info.bytes_per_pixel >= 1 ==> y * info.stride + x <= info.byte_offset(x, y),
        info.byte_offset(x, y) + info.bytes_per_pixel <= info.required_len(),
{
    let s = info.stride as int;
    let b = info.bytes_per_pixel as int;
    let h = info.height as int;
    assert(0 <= y * s) by (nonlinear_arith)
        requires
            0 <= y,
            0 <= s,
    ;
    assert(y * s + x + 1 <= h * s) by (nonlinear_arith)
        requires
            0 <= y < h,
            0 <= x < s,
    ;
    assert((y * s + x) * b + b == (y * s + x + 1) * b) by (nonlinear_arith);
    assert((y * s + x + 1) * b <= (h * s) * b) by (nonlinear_arith)
        requires
            y * s + x + 1 <= h * s,
            0 <= b,
    ;
    assert(0 <= (y * s + x) * b) by (nonlinear_arith)
        requires
            0 <= y * s + x,
            0 <= b,
    ;
    assert(b >= 1 ==> y * s + x <= (y * s + x) * b) by (nonlinear_arith)
        requires
            0 <= y * s + x,
    ;
}

} // verus!

use framebuffer_writer::error::WriterError;
use framebuffer_writer::surface::{encode_pixel, store_pixel, Color, PixelFormat, SurfaceInfo};

fn info(width: usize, height: usize, stride: usize, bpp: usize, format: PixelFormat) -> SurfaceInfo {
    SurfaceInfo { width, height, stride, bytes_per_pixel: bpp, pixel_format: format }
}

#[test]
fn encode_rgb_keeps_channel_order() {
    let color = Color { red: 10, green: 20, blue: 30 };
    assert_eq!(encode_pixel(PixelFormat::Rgb, color), Ok([10, 20, 30, 0]));
}

#[test]
fn encode_bgr_swaps_red_and_blue() {
    let color = Color { red: 10, green: 20, blue: 30 };
    assert_eq!(encode_pixel(PixelFormat::Bgr, color), Ok([30, 20, 10, 0]));
}

#[test]
fn encode_gray_uses_red_above_threshold() {
    let dark = Color { red: 128, green: 255, blue: 255 };
    let lit = Color { red: 129, green: 0, blue: 0 };
    assert_eq!(encode_pixel(PixelFormat::U8, dark), Ok([0, 0, 0, 0]));
    assert_eq!(encode_pixel(PixelFormat::U8, lit), Ok([0xff, 0, 0, 0]));
    assert_eq!(encode_pixel(PixelFormat::U8, Color { red: 0, green: 0, blue: 0 }), Ok([0, 0, 0, 0]));
    assert_eq!(
        encode_pixel(PixelFormat::U8, Color { red: 255, green: 0, blue: 0 }),
        Ok([0xff, 0, 0, 0])
    );
}

#[test]
fn encode_unknown_format_is_refused() {
    let color = Color { red: 1, green: 2, blue: 3 };
    assert_eq!(encode_pixel(PixelFormat::Unknown, color), Err(WriterError::UnsupportedPixelFormat));
}

#[test]
fn check_accepts_exact_fit() {
    assert_eq!(info(8, 8, 8, 4, PixelFormat::Rgb).check(256), Ok(()));
    assert_eq!(info(8, 8, 10, 3, PixelFormat::Bgr).check(240), Ok(()));
    assert_eq!(info(0, 0, 0, 1, PixelFormat::U8).check(0), Ok(()));
}

#[test]
fn check_refuses_short_buffer() {
    assert_eq!(info(8, 8, 8, 4, PixelFormat::Rgb).check(255), Err(WriterError::BufferTooSmall));
    assert_eq!(
        info(1, usize::MAX, usize::MAX, 4, PixelFormat::Rgb).check(usize::MAX),
        Err(WriterError::BufferTooSmall)
    );
    assert_eq!(
        info(1, usize::MAX / 2, 2, 4, PixelFormat::Rgb).check(usize::MAX),
        Err(WriterError::BufferTooSmall)
    );
}

#[test]
fn check_refuses_bad_geometry() {
    assert_eq!(info(8, 8, 8, 0, PixelFormat::Rgb).check(256), Err(WriterError::InvalidGeometry));
    assert_eq!(info(8, 8, 8, 5, PixelFormat::Rgb).check(4096), Err(WriterError::InvalidGeometry));
    assert_eq!(info(9, 8, 8, 4, PixelFormat::Rgb).check(4096), Err(WriterError::InvalidGeometry));
}

#[test]
fn check_reports_format_before_geometry() {
    assert_eq!(
        info(9, 8, 8, 0, PixelFormat::Unknown).check(0),
        Err(WriterError::UnsupportedPixelFormat)
    );
    assert_eq!(
        info(8, 8, 8, 4, PixelFormat::Unknown).check(256),
        Err(WriterError::UnsupportedPixelFormat)
    );
}

#[test]
fn locate_follows_offset_formula() {
    let geometry = info(8, 8, 10, 3, PixelFormat::Rgb);
    assert_eq!(geometry.locate(0, 0, 240), Some(0));
    assert_eq!(geometry.locate(5, 0, 240), Some(15));
    assert_eq!(geometry.locate(2, 3, 240), Some((3 * 10 + 2) * 3));
    assert_eq!(geometry.locate(7, 7, 240), Some(231));
}

#[test]
fn locate_rejects_outside_coordinates() {
    let geometry = info(8, 8, 10, 3, PixelFormat::Rgb);
    assert_eq!(geometry.locate(8, 0, 240), None);
    assert_eq!(geometry.locate(9, 0, 240), None);
    assert_eq!(geometry.locate(0, 8, 240), None);
    assert_eq!(geometry.locate(usize::MAX, usize::MAX, 240), None);
}

#[test]
fn store_pixel_writes_only_the_counted_bytes() {
    let mut buffer = vec![9u8; 8];
    store_pixel(&mut buffer, 2, &[1, 2, 3, 4], 3);
    assert_eq!(buffer, vec![9, 9, 1, 2, 3, 9, 9, 9]);
    store_pixel(&mut buffer, 4, &[5, 6, 7, 8], 4);
    assert_eq!(buffer, vec![9, 9, 1, 2, 5, 6, 7, 8]);
    store_pixel(&mut buffer, 0, &[5, 6, 7, 8], 0);
    assert_eq!(buffer, vec![9, 9, 1, 2, 5, 6, 7, 8]);
}

use framebuffer_writer::error::WriterError;
use framebuffer_writer::font::{
    get_char_raster, select_raster, Glyph, BACKUP_CHAR, CHAR_RASTER_HEIGHT, CHAR_RASTER_WIDTH,
};
use noto_sans_mono_bitmap::{get_raster, get_raster_width, FontWeight, RasterHeight};

#[test]
fn font_constants_match_the_font() {
    assert_eq!(CHAR_RASTER_HEIGHT, RasterHeight::Size16.val());
    assert_eq!(CHAR_RASTER_WIDTH, get_raster_width(FontWeight::Regular, RasterHeight::Size16));
    assert_eq!(CHAR_RASTER_HEIGHT, 16);
    assert_eq!(CHAR_RASTER_WIDTH, 7);
    assert_eq!(BACKUP_CHAR, '\u{FFFD}');
}

#[test]
fn known_char_gets_its_own_raster() {
    for c in ['A', 'z', '0', '\\', ' ', '~', '!'] {
        let glyph = get_char_raster(c).unwrap();
        let expected = get_raster(c, FontWeight::Regular, RasterHeight::Size16).unwrap();
        assert_eq!(glyph.rows, expected.raster());
        assert_eq!(glyph.width, expected.width());
        assert_eq!(glyph.width, 7);
        assert_eq!(glyph.rows.len(), 16);
    }
}

#[test]
fn different_chars_get_different_rasters() {
    let a = get_char_raster('A').unwrap();
    let b = get_char_raster('B').unwrap();
    assert_ne!(a.rows, b.rows);
    assert_eq!(a.rows[3], &[0, 0, 84, 213, 4, 0, 0]);
}

#[test]
fn unknown_char_gets_the_backup_raster() {
    assert!(get_raster('\u{4e2d}', FontWeight::Regular, RasterHeight::Size16).is_none());
    let glyph = get_char_raster('\u{4e2d}').unwrap();
    let backup = get_raster(BACKUP_CHAR, FontWeight::Regular, RasterHeight::Size16).unwrap();
    assert_eq!(glyph.rows, backup.raster());
    assert_eq!(glyph.width, backup.width());
}

#[test]
fn select_prefers_the_primary() {
    let first: &'static [&'static [u8]] = &[&[1, 0], &[0, 1]];
    let second: &'static [&'static [u8]] = &[&[0, 2], &[2, 0]];
    let primary = Glyph { rows: first, width: 2 };
    let backup = Glyph { rows: second, width: 3 };
    let chosen = select_raster(Some(primary), Some(backup)).unwrap();
    assert_eq!(chosen.rows, first);
    assert_eq!(chosen.width, 2);
    let chosen = select_raster(Some(primary), None).unwrap();
    assert_eq!(chosen.rows, first);
}

#[test]
fn select_falls_back_to_the_backup() {
    let second: &'static [&'static [u8]] = &[&[0, 2], &[2, 0]];
    let backup = Glyph { rows: second, width: 3 };
    let chosen = select_raster(None, Some(backup)).unwrap();
    assert_eq!(chosen.rows, second);
    assert_eq!(chosen.width, 3);
}

#[test]
fn select_fails_without_any_raster() {
    assert_eq!(select_raster(None, None).unwrap_err(), WriterError::MissingGlyph);
}

use vesper::display::{Display, PixelOrder, Size2d, CHARSIZE_X, CHARSIZE_Y};
use vesper::font::{glyph_row, glyphs};

fn screen(width: u32, height: u32, order: PixelOrder) -> (Display, Vec<u8>) {
    let pitch = width * 4;
    let d = Display::new(0x3e40_2000, pitch * height, 32, pitch, width / 8, height / 8, width, height, order);
    (d, vec![0u8; (pitch * height) as usize])
}

/// The colour of a pixel of a 32-bit RGB frame, as it was put.
fn pixel(frame: &[u8], pitch: usize, x: usize, y: usize) -> u32 {
    let at = y * pitch + x * 4;
    frame[at] as u32 | (frame[at + 1] as u32) << 8 | (frame[at + 2] as u32) << 16
}

#[test]
fn display_keeps_its_fields() {
    let d = Display::new(0x3e40_2000, 1_920_000, 32, 3200, 100, 75, 800, 600, PixelOrder::RGB);
    assert_eq!(d.base(), 0x3e40_2000);
    assert_eq!(d.size(), 1_920_000);
    assert_eq!(d.depth(), 32);
    assert_eq!(d.pitch(), 3200);
    assert_eq!(d.max_x(), 100);
    assert_eq!(d.max_y(), 75);
    assert_eq!(d.width(), 800);
    assert_eq!(d.height(), 600);
    assert_eq!(d.order(), PixelOrder::RGB);
}

#[test]
fn pixel_order_codes() {
    assert_eq!(PixelOrder::BGR.code(), 0);
    assert_eq!(PixelOrder::RGB.code(), 1);
    assert_eq!(PixelOrder::from_code(0), Some(PixelOrder::BGR));
    assert_eq!(PixelOrder::from_code(1), Some(PixelOrder::RGB));
    assert_eq!(PixelOrder::from_code(2), None);
    assert_eq!(PixelOrder::from_code(u32::MAX), None);
}

#[test]
fn character_cells_are_eight_by_eight() {
    assert_eq!(CHARSIZE_X, 8);
    assert_eq!(CHARSIZE_Y, 8);
    let size = Size2d { x: 640, y: 480 };
    assert_eq!((size.x / CHARSIZE_X, size.y / CHARSIZE_Y), (80, 60));
}

#[test]
fn putpixel_stores_channels_in_rgb_order() {
    let (d, mut frame) = screen(4, 4, PixelOrder::RGB);
    d.putpixel(&mut frame, 1, 2, 0xaa11_2233);
    let at = 2 * 16 + 1 * 4;
    assert_eq!(&frame[at..at + 4], &[0x33, 0x22, 0x11, 0][..]);
    assert_eq!(frame.iter().filter(|b| **b != 0).count(), 3);
}

#[test]
fn putpixel_stores_channels_in_bgr_order() {
    let (d, mut frame) = screen(4, 4, PixelOrder::BGR);
    d.putpixel(&mut frame, 3, 0, 0x0011_2233);
    assert_eq!(&frame[12..16], &[0x11, 0x22, 0x33, 0][..]);
    assert_eq!(frame.iter().filter(|b| **b != 0).count(), 3);
}

#[test]
fn putpixel_uses_pitch_and_depth() {
    // 24 bits per pixel, rows of 10 bytes.
    let d = Display::new(0, 40, 24, 10, 0, 0, 3, 4, PixelOrder::RGB);
    let mut frame = vec![0u8; 40];
    d.putpixel(&mut frame, 2, 3, 0x00c0_b0a0);
    assert_eq!(&frame[36..39], &[0xa0, 0xb0, 0xc0][..]);
    assert_eq!(frame.iter().filter(|b| **b != 0).count(), 3);
}

#[test]
fn putpixel_leaves_out_what_is_outside_the_frame() {
    let (d, mut frame) = screen(4, 4, PixelOrder::RGB);
    let before = frame.clone();
    d.putpixel(&mut frame, 0, 4, 0xffffff);
    d.putpixel(&mut frame, 0xffff, 0xffff, 0xffffff);
    assert_eq!(frame, before);
    // The last pixel lies in the frame.
    d.putpixel(&mut frame, 3, 3, 0xffffff);
    assert_eq!(&frame[60..64], &[0xff, 0xff, 0xff, 0][..]);
    // A frame that ends within the pixel's three bytes takes none of them.
    let mut short = vec![0u8; 62];
    d.putpixel(&mut short, 3, 3, 0xffffff);
    assert!(short.iter().all(|b| *b == 0));
    let mut enough = vec![0u8; 63];
    d.putpixel(&mut enough, 3, 3, 0xffffff);
    assert_eq!(&enough[60..63], &[0xff, 0xff, 0xff][..]);
}

#[test]
fn rect_fills_half_open_ranges() {
    let (d, mut frame) = screen(8, 8, PixelOrder::RGB);
    d.rect(&mut frame, 2, 1, 5, 3, 0x0000_00ff);
    for y in 0..8 {
        for x in 0..8 {
            let inside = (2..5).contains(&x) && (1..3).contains(&y);
            assert_eq!(pixel(&frame, 32, x, y), if inside { 0xff } else { 0 });
        }
    }
}

#[test]
fn rect_with_empty_range_draws_nothing() {
    let (d, mut frame) = screen(8, 8, PixelOrder::RGB);
    d.rect(&mut frame, 3, 3, 3, 6, 0xffffff);
    d.rect(&mut frame, 3, 3, 6, 3, 0xffffff);
    d.rect(&mut frame, 6, 6, 3, 3, 0xffffff);
    assert!(frame.iter().all(|b| *b == 0));
}

#[test]
fn rect_is_clipped_to_the_frame() {
    let (d, mut frame) = screen(4, 4, PixelOrder::RGB);
    d.rect(&mut frame, 0, 2, 4, 9, 0x0000_0001);
    for y in 0..4 {
        for x in 0..4 {
            assert_eq!(pixel(&frame, 16, x, y), if y >= 2 { 1 } else { 0 });
        }
    }
}

#[test]
fn glyph_rows_come_top_first() {
    let table = glyphs();
    assert_eq!(table.len(), 95);
    assert_eq!(table[0], 0);
    let a = table[('A' as u8 - 0x20) as usize];
    assert_eq!(a, 0x0c1e_3333_3f33_3300);
    let rows: Vec<u8> = (0..8).map(|row| glyph_row(a, row)).collect();
    assert_eq!(rows, vec![0x0c, 0x1e, 0x33, 0x33, 0x3f, 0x33, 0x33, 0x00]);
    assert_eq!(glyph_row(a, 8), 0);
    assert_eq!(glyph_row(a, 255), 0);
    assert_eq!(table[94], 0x6e3b_0000_0000_0000);
}

#[test]
fn draw_text_draws_glyph_rows() {
    let (d, mut frame) = screen(16, 10, PixelOrder::RGB);
    d.draw_text(&mut frame, 1, 2, "A", 0x00ab_cdef);
    let rows = [0x0cu8, 0x1e, 0x33, 0x33, 0x3f, 0x33, 0x33, 0x00];
    for y in 0..10usize {
        for x in 0..16usize {
            let set = (2..10).contains(&y)
                && (1..9).contains(&x)
                && (rows[y - 2] >> (x - 1)) & 1 == 1;
            assert_eq!(pixel(&frame, 64, x, y), if set { 0x00ab_cdef } else { 0 });
        }
    }
}

#[test]
fn draw_text_places_characters_eight_columns_apart() {
    let (d, mut frame) = screen(24, 8, PixelOrder::RGB);
    d.draw_text(&mut frame, 0, 0, "_ _", 0x0000_0007);
    for y in 0..8usize {
        for x in 0..24usize {
            // The underscore is the bottom row, full width.
            let set = y == 7 && (x < 8 || x >= 16);
            assert_eq!(pixel(&frame, 96, x, y), if set { 7 } else { 0 });
        }
    }
}

#[test]
fn draw_text_stops_at_character_without_glyph() {
    let (d, mut frame) = screen(32, 8, PixelOrder::RGB);
    d.draw_text(&mut frame, 0, 0, "A\nA", 0x0000_0009);
    // Only the top row of the first character is drawn.
    for y in 0..8usize {
        for x in 0..32usize {
            let set = y == 0 && (x == 2 || x == 3);
            assert_eq!(pixel(&frame, 128, x, y), if set { 9 } else { 0 });
        }
    }
    let (d, mut frame) = screen(32, 8, PixelOrder::RGB);
    d.draw_text(&mut frame, 0, 0, "\u{7f}A", 1);
    assert!(frame.iter().all(|b| *b == 0));
    let (d, mut frame) = screen(32, 8, PixelOrder::RGB);
    d.draw_text(&mut frame, 0, 0, "é", 1);
    assert!(frame.iter().all(|b| *b == 0));
}

#[test]
fn draw_text_draws_the_last_glyph() {
    let (d, mut frame) = screen(8, 8, PixelOrder::RGB);
    d.draw_text(&mut frame, 0, 0, "~", 3);
    let rows = [0x6eu8, 0x3b, 0, 0, 0, 0, 0, 0];
    for y in 0..8usize {
        for x in 0..8usize {
            let set = (rows[y] >> x) & 1 == 1;
            assert_eq!(pixel(&frame, 32, x, y), if set { 3 } else { 0 });
        }
    }
}

#[test]
fn draw_text_is_clipped() {
    let (d, mut frame) = screen(8, 8, PixelOrder::RGB);
    // The second character lies to the right of the frame's last row only.
    d.draw_text(&mut frame, 0xfffc, 0xfffc, "##", 5);
    assert!(frame.iter().all(|b| *b == 0));
    d.draw_text(&mut frame, 0, 0, "", 5);
    assert!(frame.iter().all(|b| *b == 0));
    let long = "#".repeat(9000);
    let mut nothing: Vec<u8> = Vec::new();
    d.draw_text(&mut nothing, 0, 0, &long, 5);
    assert!(nothing.is_empty());
}

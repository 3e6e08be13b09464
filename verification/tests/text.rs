use raster_device::device::{DeviceError, ImageDevice, TextScale};
use raster_device::geometry::Rectangle;
use raster_device::glyph::{Glyph, GlyphBitmap, TextInfo};

const WHITE: (u8, u8, u8) = (255, 255, 255);
const BLACK: (u8, u8, u8) = (0, 0, 0);

fn page(width: u32, height: u32) -> ImageDevice {
    let mut d = ImageDevice::new(72_000, 72_000);
    let media = Rectangle::new(0, 0, width * 1000, height * 1000);
    d.begin_page(&media, &media);
    d
}

fn glyph(advance: u32, width: u32, rows: u32, cells: Vec<u8>) -> Glyph {
    Glyph { code: 65, advance, bitmap: GlyphBitmap::new(width, rows, cells).unwrap() }
}

fn text(x: u32, y: u32, box_width: u32, glyphs: Vec<Glyph>) -> TextInfo {
    TextInfo { x, y, bbox: Rectangle::new(0, 0, box_width, box_width), glyphs }
}

fn black_pixels(d: &ImageDevice) -> Vec<(u32, u32)> {
    let mut found = Vec::new();
    for y in 0..d.height() {
        for x in 0..d.width() {
            match d.pixel(x, y) {
                Some(c) if c == BLACK => found.push((x, y)),
                Some(c) => assert_eq!(c, WHITE),
                None => panic!("pixel on the page has no colour"),
            }
        }
    }
    found
}

#[test]
fn bitmap_needs_one_value_per_cell() {
    assert!(GlyphBitmap::new(2, 3, vec![0; 6]).is_some());
    assert!(GlyphBitmap::new(2, 3, vec![0; 5]).is_none());
    assert!(GlyphBitmap::new(2, 3, vec![0; 7]).is_none());
    assert!(GlyphBitmap::new(0, 3, vec![]).is_some());
    assert!(GlyphBitmap::new(0, 0, vec![1]).is_none());
}

#[test]
fn bitmap_cells_are_read_row_by_row() {
    let b = GlyphBitmap::new(3, 2, vec![1, 2, 3, 4, 5, 6]).unwrap();
    assert_eq!(b.cell(0, 0), 1);
    assert_eq!(b.cell(0, 2), 3);
    assert_eq!(b.cell(1, 0), 4);
    assert_eq!(b.cell(1, 2), 6);
    assert_eq!(b.cell(2, 0), 0);
    assert_eq!(b.cell(0, 3), 0);
    let short = GlyphBitmap { width: 2, rows: 2, buffer: vec![7, 8, 9] };
    assert_eq!(short.cell(1, 0), 9);
    assert_eq!(short.cell(1, 1), 0);
}

#[test]
fn square_box_on_2550_pixels_scales_by_2_55() {
    let mut d = ImageDevice::new(300_000, 300_000);
    let media = Rectangle::new(0, 0, 612_000, 792_000);
    d.begin_page(&media, &media);
    let t = TextInfo {
        x: 0,
        y: 0,
        bbox: Rectangle::new(0, 0, 1_000_000, 1_000_000),
        glyphs: vec![],
    };
    assert_eq!(d.text_scale(&t), Ok(TextScale { x: 2550, y: 2550, glyph: 2550 }));
}

#[test]
fn glyph_scale_is_the_root_of_the_mean_square() {
    let d = page(300, 10);
    let t = TextInfo { x: 0, y: 0, bbox: Rectangle::new(0, 0, 100_000, 50_000), glyphs: vec![] };
    // 300 pixels on 100 and on 50 units: x = 3000, y = 6000: sqrt((9_000_000 + 36_000_000) / 2) = 4743.4..
    assert_eq!(d.text_scale(&t), Ok(TextScale { x: 3000, y: 6000, glyph: 4743 }));
}

#[test]
fn box_without_width_or_height_has_no_scale() {
    let d = page(10, 10);
    let flat = TextInfo { x: 0, y: 0, bbox: Rectangle::new(0, 0, 10, 0), glyphs: vec![] };
    let thin = TextInfo { x: 0, y: 0, bbox: Rectangle::new(0, 0, 0, 10), glyphs: vec![] };
    assert_eq!(d.text_scale(&flat), Err(DeviceError::EmptyBoundingBox));
    assert_eq!(d.text_scale(&thin), Err(DeviceError::EmptyBoundingBox));
}

#[test]
fn text_without_glyphs_leaves_the_page() {
    let mut d = page(8, 8);
    assert_eq!(d.show_text(&text(3, 3, 8, vec![])), Ok(()));
    assert_eq!(black_pixels(&d), vec![]);
    let dot = GlyphBitmap::new(1, 1, vec![1]).unwrap();
    d.draw_char(4, 4, &dot);
    assert_eq!(d.show_text(&text(3, 3, 8, vec![])), Ok(()));
    assert_eq!(black_pixels(&d), vec![(4, 4)]);
}

#[test]
fn blank_glyph_leaves_the_page_and_moves_the_pen() {
    let mut d = page(10, 10);
    let blank = glyph(4, 2, 2, vec![0, 0, 0, 0]);
    assert_eq!(d.show_text(&text(1, 0, 10, vec![blank])), Ok(()));
    assert_eq!(black_pixels(&d), vec![]);
    // the same blank glyph, then a dot: the dot stands at 1 + 4
    let blank = glyph(4, 2, 2, vec![0, 0, 0, 0]);
    let dot = glyph(1, 1, 1, vec![255]);
    assert_eq!(d.show_text(&text(1, 0, 10, vec![blank, dot])), Ok(()));
    assert_eq!(black_pixels(&d), vec![(5, 9)]);
}

#[test]
fn opaque_glyph_inks_exactly_its_rectangle() {
    let mut d = page(10, 10);
    let block = glyph(3, 3, 2, vec![255; 6]);
    // scale 10 / 5 = 2: column 2 * 2, baseline 1 * 2 rows above the bottom
    assert_eq!(d.show_text(&text(2, 1, 5, vec![block])), Ok(()));
    assert_eq!(black_pixels(&d), vec![(4, 6), (5, 6), (6, 6), (4, 7), (5, 7), (6, 7)]);
}

#[test]
fn any_coverage_but_zero_is_black() {
    let mut d = page(4, 4);
    let b = GlyphBitmap::new(2, 2, vec![1, 0, 0, 128]).unwrap();
    d.draw_char(1, 3, &b);
    assert_eq!(black_pixels(&d), vec![(1, 1), (2, 2)]);
}

#[test]
fn glyphs_follow_each_other_by_their_scaled_advances() {
    let mut d = page(30, 4);
    // box width 20 on 30 pixels: scale 1.5
    let glyphs = vec![
        glyph(3, 1, 1, vec![1]),
        glyph(4, 1, 1, vec![1]),
        glyph(0, 1, 1, vec![1]),
        glyph(5, 1, 1, vec![1]),
        glyph(100, 1, 1, vec![1]),
    ];
    assert_eq!(d.show_text(&text(1, 0, 20, glyphs)), Ok(()));
    // pens 1, 4, 8, 8, 13: columns 1.5, 6, 12, 12, 19.5, rounded toward zero
    assert_eq!(black_pixels(&d), vec![(1, 3), (6, 3), (12, 3), (19, 3)]);
}

#[test]
fn baseline_is_scaled_like_the_columns() {
    let mut d = page(30, 20);
    let g = glyph(1, 1, 2, vec![1, 1]);
    // baseline 5 * 1.5 = 7.5 -> 7; the glyph's two rows are 20 - 9 and 20 - 8
    assert_eq!(d.show_text(&text(0, 5, 20, vec![g])), Ok(()));
    assert_eq!(black_pixels(&d), vec![(0, 11), (0, 12)]);
}

#[test]
fn what_falls_off_the_page_is_dropped() {
    let mut d = page(4, 4);
    let block = GlyphBitmap::new(3, 3, vec![1; 9]).unwrap();
    // right and bottom edge
    d.draw_char(2, 2, &block);
    assert_eq!(black_pixels(&d), vec![(2, 2), (3, 2), (2, 3), (3, 3)]);
    // above the top edge
    let mut e = page(4, 4);
    e.draw_char(0, 5, &block);
    assert_eq!(black_pixels(&e), vec![(0, 0), (1, 0), (2, 0), (0, 1), (1, 1), (2, 1)]);
    // wholly outside
    let mut f = page(4, 4);
    f.draw_char(4, 2, &block);
    f.draw_char(0, 0, &block);
    f.draw_char(0, 100, &block);
    f.draw_char(u32::MAX, u64::MAX, &block);
    assert_eq!(black_pixels(&f), vec![]);
}

#[test]
fn text_far_off_the_page_is_dropped() {
    let mut d = page(4, 4);
    let glyphs = vec![
        glyph(u32::MAX, 1, 1, vec![1]),
        glyph(u32::MAX, 1, 1, vec![1]),
        glyph(u32::MAX, 1, 1, vec![1]),
    ];
    assert_eq!(d.show_text(&text(u32::MAX, u32::MAX, 1, glyphs)), Ok(()));
    assert_eq!(black_pixels(&d), vec![]);
}

#[test]
fn ink_stays_when_more_is_drawn() {
    let mut d = page(6, 6);
    let dot = GlyphBitmap::new(1, 1, vec![1]).unwrap();
    d.draw_char(2, 3, &dot);
    let blank = GlyphBitmap::new(3, 3, vec![0; 9]).unwrap();
    d.draw_char(1, 4, &blank);
    d.draw_char(4, 1, &dot);
    assert_eq!(black_pixels(&d), vec![(2, 3), (4, 5)]);
}

#[test]
fn text_without_a_page_is_refused() {
    let mut d = ImageDevice::new(72_000, 72_000);
    let t = text(0, 0, 1, vec![glyph(1, 1, 1, vec![1])]);
    assert_eq!(d.show_text(&t), Err(DeviceError::NoPage));
    assert_eq!(d.pixel(0, 0), Some(BLACK));
    let mut e = page(2, 2);
    assert!(e.end_page().is_ok());
    assert_eq!(e.show_text(&t), Err(DeviceError::NoPage));
}

#[test]
fn text_with_a_box_without_width_is_refused() {
    let mut d = page(4, 4);
    let t = text(0, 0, 0, vec![glyph(1, 1, 1, vec![1])]);
    assert_eq!(d.show_text(&t), Err(DeviceError::EmptyBoundingBox));
    assert_eq!(black_pixels(&d), vec![]);
}

#[test]
fn text_without_glyphs_succeeds_whatever_the_box_and_the_page() {
    let mut d = page(4, 4);
    let dot = GlyphBitmap::new(1, 1, vec![1]).unwrap();
    d.draw_char(1, 1, &dot);
    assert_eq!(d.show_text(&text(7, 9, 0, vec![])), Ok(()));
    assert_eq!(black_pixels(&d), vec![(1, 3)]);
    assert_eq!((d.width(), d.height()), (4, 4));
    // before the first page
    let mut e = ImageDevice::new(72_000, 72_000);
    assert_eq!(e.show_text(&text(0, 0, 0, vec![])), Ok(()));
    assert_eq!(e.pixel(0, 0), Some(BLACK));
    // after the page was ended
    assert!(d.end_page().is_ok());
    assert_eq!(d.show_text(&text(0, 0, 5, vec![])), Ok(()));
    assert_eq!(black_pixels(&d), vec![(1, 3)]);
}

#[test]
fn advances_of_less_than_a_unit_add_up() {
    let mut d = page(30, 2);
    // a box 20 units wide on 30 pixels: scale 1.5; each advance is 0.75 units
    let glyphs = vec![
        glyph(750, 1, 1, vec![1]),
        glyph(750, 1, 1, vec![1]),
        glyph(750, 1, 1, vec![1]),
        glyph(750, 1, 1, vec![1]),
        glyph(750, 1, 1, vec![1]),
    ];
    assert_eq!(d.show_text(&text(500, 0, 20_000, glyphs)), Ok(()));
    // pens 0.5, 1.25, 2, 2.75, 3.5: columns 0.75, 1.875, 3, 4.125, 5.25
    assert_eq!(black_pixels(&d), vec![(0, 1), (1, 1), (3, 1), (4, 1), (5, 1)]);
}

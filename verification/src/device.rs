//! The raster device: one page image at a time, begun, drawn on and ended.

use vstd::prelude::*;
use crate::geometry::{
    floor_sqrt, is_mean_scale, milli_scale, scale_extent, scaled_extent, Rectangle,
};
use crate::glyph::{glyph_covers, GlyphBitmap, TextInfo};
use crate::naming::{format_page_name, page_name};
use crate::raster::{
    allocatable, color_at, encode_png, error_text, filled_image, fills_grid, height_of, image_height,
    image_pixels, image_width, on_grid, png_encoding, set_color, uniform_pixels, width_of,
    zeroed_image, Color, PageImage,
};

verus! {

/// The colour of a fresh page.
pub open spec fn white() -> Color {
    (255u8, 255u8, 255u8)
}

/// The colour of text.
pub open spec fn black() -> Color {
    (0u8, 0u8, 0u8)
}

/// Why the device refused a call.
#[derive(Debug, PartialEq, Eq)]
pub enum DeviceError {
    /// No page is open to draw on, or none has been begun that could be
    /// ended.
    NoPage,
    /// The bounding box of a text request has no width to scale from, or
    /// no height where the vertical scale is asked for.
    EmptyBoundingBox,
    /// The page image could not be encoded; the encoder's message.
    Encoding(String),
    /// The count of finished pages cannot grow any further.
    TooManyPages,
}

/// A finished page: its index in the run, counted from zero, and its image
/// as the bytes of a PNG file.
#[derive(Debug)]
pub struct PageOutput {
    pub index: u64,
    pub png: Vec<u8>,
}

impl PageOutput {
    /// The name of the file that the page is written to: `page-`, the
    /// page's index in decimal digits, and `.png`. Pages with different
    /// indices have different names.
    pub fn file_name(&self) -> (name: String)
        ensures
            name@ == page_name(self.index as nat),
    {
        format_page_name(self.index)
    }
}

/// The scales of a text request on a page, in thousandths of a pixel per
/// whole unit of the bounding box: along each side of the box, and the one scale
/// at which glyph bitmaps are to be rasterized.
#[derive(Clone, Copy, Debug, PartialEq, Eq, Structural)]
pub struct TextScale {
    pub x: u64,
    pub y: u64,
    pub glyph: u64,
}

/// A decoded path. The device takes paths and draws none of them.
#[derive(Debug)]
pub struct PathInfo {}

/// The pixels of a page after a bitmap, its top left cell at column `left`
/// and row `top`, was drawn on `before`: black where the bitmap covers the
/// page, and as before elsewhere. What falls outside the page is dropped.
pub open spec fn stamped(
    before: Map<(int, int), Color>,
    width: nat,
    height: nat,
    bitmap: &GlyphBitmap,
    left: int,
    top: int,
) -> Map<(int, int), Color> {
    Map::new(
        |p: (int, int)| on_grid(width, height, p.0, p.1),
        |p: (int, int)|
            if glyph_covers(bitmap, left, top, p.0, p.1) {
                black()
            } else {
                before[p]
            },
    )
}

/// As [`stamped`], of the cells that come before row `i`, column `j` of the
/// bitmap, row by row.
pub open spec fn stamped_before(
    before: Map<(int, int), Color>,
    width: nat,
    height: nat,
    bitmap: &GlyphBitmap,
    left: int,
    top: int,
    i: int,
    j: int,
) -> Map<(int, int), Color> {
    Map::new(
        |p: (int, int)| on_grid(width, height, p.0, p.1),
        |p: (int, int)|
            if glyph_covers(bitmap, left, top, p.0, p.1) && (p.1 - top < i || (p.1 - top == i
                && p.0 - left < j)) {
                black()
            } else {
                before[p]
            },
    )
}

/// The pixels of a page after the first `n` glyphs of `text` were drawn on
/// `before`.
pub open spec fn inked_before(
    before: Map<(int, int), Color>,
    width: nat,
    height: nat,
    text: &TextInfo,
    n: int,
) -> Map<(int, int), Color> {
    Map::new(
        |p: (int, int)| on_grid(width, height, p.0, p.1),
        |p: (int, int)|
            if text.covers_before(width as int, height as int, n, p.0, p.1) {
                black()
            } else {
                before[p]
            },
    )
}

/// The pixels of a page after `text` was drawn on `before`.
pub open spec fn inked(
    before: Map<(int, int), Color>,
    width: nat,
    height: nat,
    text: &TextInfo,
) -> Map<(int, int), Color> {
    inked_before(before, width, height, text, text.glyphs@.len() as int)
}

/// Whether a page for `media` at the given resolutions has a size that fits
/// the machine.
pub open spec fn page_fits(x_res: u32, y_res: u32, media: &Rectangle) -> bool {
    &&& scaled_extent(x_res as nat, media.width as nat) <= u32::MAX
    &&& scaled_extent(y_res as nat, media.height as nat) <= u32::MAX
    &&& allocatable(
        scaled_extent(x_res as nat, media.width as nat),
        scaled_extent(y_res as nat, media.height as nat),
    )
}

/// What ending a page returns, given its index and what the encoder gave:
/// the page with the encoder's bytes, or the encoder's message as an
/// error.
pub fn page_output(index: u64, encoded: Result<Vec<u8>, image::ImageError>) -> (r: Result<
    PageOutput,
    DeviceError,
>)
    ensures
        match encoded {
            Ok(bytes) => r matches Ok(out) && out.index == index && out.png@ == bytes@,
            Err(_) => r matches Err(DeviceError::Encoding(_)),
        },
{
    match encoded {
        Ok(bytes) => Ok(PageOutput { index, png: bytes }),
        Err(error) => Err(DeviceError::Encoding(error_text(&error))),
    }
}

/// A device that renders pages at a fixed resolution.
pub struct ImageDevice {
    x_res: u32,
    y_res: u32,
    image: PageImage,
    open: bool,
    finished: u64,
}

impl ImageDevice {
    /// Horizontal resolution, in thousandths of a pixel per inch.
    pub closed spec fn x_res(&self) -> u32 {
        self.x_res
    }

    /// Vertical resolution, in thousandths of a pixel per inch.
    pub closed spec fn y_res(&self) -> u32 {
        self.y_res
    }

    /// The width of the current image, in pixels.
    pub closed spec fn page_width(&self) -> nat {
        image_width(self.image)
    }

    /// The height of the current image, in pixels.
    pub closed spec fn page_height(&self) -> nat {
        image_height(self.image)
    }

    /// The colour of each pixel of the current image, by column and row.
    pub closed spec fn pixels(&self) -> Map<(int, int), Color> {
        image_pixels(self.image)
    }

    /// Whether a page has been begun and not ended.
    pub closed spec fn page_open(&self) -> bool {
        self.open
    }

    /// How many pages have been ended, each counted once.
    pub closed spec fn pages_finished(&self) -> nat {
        self.finished as nat
    }

    /// The image has a colour for each pixel of its grid and for nothing
    /// else.
    pub open spec fn wf(&self) -> bool {
        fills_grid(self.pixels(), self.page_width(), self.page_height())
    }

    /// The index that the current image has as a page of the run, if it
    /// has one: an open page is the next to be finished, and an ended page
    /// is the last one that was. Before the first page there is none, nor
    /// where the count of finished pages cannot grow.
    pub open spec fn current_index(&self) -> Option<nat> {
        if self.page_open() {
            if self.pages_finished() < u64::MAX {
                Some(self.pages_finished())
            } else {
                None
            }
        } else {
            if self.pages_finished() > 0 {
                Some((self.pages_finished() - 1) as nat)
            } else {
                None
            }
        }
    }

    /// Whether two devices differ in nothing but their pixels.
    pub open spec fn same_frame(&self, other: &ImageDevice) -> bool {
        &&& self.x_res() == other.x_res()
        &&& self.y_res() == other.y_res()
        &&& self.page_width() == other.page_width()
        &&& self.page_height() == other.page_height()
        &&& self.page_open() == other.page_open()
        &&& self.pages_finished() == other.pages_finished()
    }

    /// A device with the given resolutions, in thousandths of a pixel per
    /// inch. No page is open; until one is begun the image is a single
    /// black pixel.
    pub fn new(x_res: u32, y_res: u32) -> (d: ImageDevice)
        ensures
            d.wf(),
            d.x_res() == x_res,
            d.y_res() == y_res,
            d.page_width() == 1,
            d.page_height() == 1,
            d.pixels() == uniform_pixels(1, 1, black()),
            !d.page_open(),
            d.pages_finished() == 0,
    {
        let image = zeroed_image(1, 1);
        ImageDevice { x_res, y_res, image, open: false, finished: 0 }
    }

    pub fn x_resolution(&self) -> (r: u32)
        ensures
            r == self.x_res(),
    {
        self.x_res
    }

    pub fn y_resolution(&self) -> (r: u32)
        ensures
            r == self.y_res(),
    {
        self.y_res
    }

    pub fn width(&self) -> (w: u32)
        ensures
            w == self.page_width(),
    {
        width_of(&self.image)
    }

    pub fn height(&self) -> (h: u32)
        ensures
            h == self.page_height(),
    {
        height_of(&self.image)
    }

    pub fn is_page_open(&self) -> (b: bool)
        ensures
            b == self.page_open(),
    {
        self.open
    }

    pub fn finished_pages(&self) -> (n: u64)
        ensures
            n == self.pages_finished(),
    {
        self.finished
    }

    /// The colour of the pixel at column `x`, row `y`, rows counted from the
    /// top; `None` outside the image.
    pub fn pixel(&self, x: u32, y: u32) -> (c: Option<Color>)
        ensures
            c is Some <==> on_grid(self.page_width(), self.page_height(), x as int, y as int),
            c matches Some(color) ==> color == self.pixels()[(x as int, y as int)],
    {
        if x < width_of(&self.image) && y < height_of(&self.image) {
            Some(color_at(&self.image, x, y))
        } else {
            None
        }
    }

    /// Whether [`ImageDevice::begin_page`] can allocate the page for `media`.
    pub fn can_begin_page(&self, media: &Rectangle) -> (b: bool)
        ensures
            b == page_fits(self.x_res(), self.y_res(), media),
    {
        let w: u64 = scale_extent(self.x_res, media.width);
        let h: u64 = scale_extent(self.y_res, media.height);
        if w > 0xffff_ffff || h > 0xffff_ffff {
            return false;
        }
        assert(w * h <= 0xffff_ffff * 0xffff_ffff) by (nonlinear_arith)
            requires
                w <= 0xffff_ffff,
                h <= 0xffff_ffff,
        ;
        let limit: u64 = (isize::MAX as u64) / 3;
        w * h <= limit
    }

    /// Begins a page: the image is replaced by a white one whose size is
    /// that of `media` at the device's resolution, each side rounded toward
    /// zero. `crop` has no effect.
    pub fn begin_page(&mut self, media: &Rectangle, crop: &Rectangle)
        requires
            page_fits(old(self).x_res(), old(self).y_res(), media),
        ensures
            final(self).wf(),
            final(self).x_res() == old(self).x_res(),
            final(self).y_res() == old(self).y_res(),
            final(self).pages_finished() == old(self).pages_finished(),
            final(self).page_open(),
            final(self).page_width() == scaled_extent(old(self).x_res() as nat, media.width as nat),
            final(self).page_height() == scaled_extent(
                old(self).y_res() as nat,
                media.height as nat,
            ),
            final(self).pixels() == uniform_pixels(
                final(self).page_width(),
                final(self).page_height(),
                white(),
            ),
    {
        let w: u64 = scale_extent(self.x_res, media.width);
        let h: u64 = scale_extent(self.y_res, media.height);
        self.image = filled_image(w as u32, h as u32, (255u8, 255u8, 255u8));
        self.open = true;
    }

    /// Draws one bitmap in black. Its left edge is at column `x`; its top
    /// row is `y` rows above the bottom edge of the page, so that row `i` of
    /// the bitmap lands on row `height - y + i`. Cells that are not covered
    /// change nothing, and cells that fall outside the page are dropped.
    pub fn draw_char(&mut self, x: u32, y: u64, bitmap: &GlyphBitmap)
        requires
            old(self).wf(),
        ensures
            final(self).wf(),
            final(self).same_frame(old(self)),
            final(self).pixels() == stamped(
                old(self).pixels(),
                old(self).page_width(),
                old(self).page_height(),
                bitmap,
                x as int,
                old(self).page_height() - y,
            ),
            bitmap.is_blank() ==> final(self).pixels() == old(self).pixels(),
    {
        let w: u32 = width_of(&self.image);
        let h: u32 = height_of(&self.image);
        let ghost before = self.pixels();
        let ghost left = x as int;
        let ghost top = h as int - y as int;
        assert(self.pixels() =~= stamped_before(before, w as nat, h as nat, bitmap, left, top, 0, 0));
        let mut i: u32 = 0;
        while i < bitmap.rows
            invariant
                i <= bitmap.rows,
                self.same_frame(old(self)),
                w == self.page_width(),
                h == self.page_height(),
                left == x as int,
                top == h as int - y as int,
                self.pixels() == stamped_before(before, w as nat, h as nat, bitmap, left, top, i as int, 0),
            decreases bitmap.rows - i,
        {
            let mut j: u32 = 0;
            while j < bitmap.width
                invariant
                    i < bitmap.rows,
                    j <= bitmap.width,
                    self.same_frame(old(self)),
                    w == self.page_width(),
                    h == self.page_height(),
                    left == x as int,
                    top == h as int - y as int,
                    self.pixels() == stamped_before(
                        before,
                        w as nat,
                        h as nat,
                        bitmap,
                        left,
                        top,
                        i as int,
                        j as int,
                    ),
                decreases bitmap.width - j,
            {
                let coverage: u8 = bitmap.cell(i, j);
                let column: u64 = x as u64 + j as u64;
                let shifted: u64 = h as u64 + i as u64;
                if coverage != 0 && column < w as u64 && shifted >= y && shifted - y < h as u64 {
                    set_color(&mut self.image, column as u32, (shifted - y) as u32, (0u8, 0u8, 0u8));
                }
                assert(self.pixels() =~= stamped_before(
                    before,
                    w as nat,
                    h as nat,
                    bitmap,
                    left,
                    top,
                    i as int,
                    j + 1,
                ));
                j = j + 1;
            }
            assert(self.pixels() =~= stamped_before(
                before,
                w as nat,
                h as nat,
                bitmap,
                left,
                top,
                i + 1,
                0,
            ));
            i = i + 1;
        }
        assert(self.pixels() =~= stamped(before, w as nat, h as nat, bitmap, left, top));
        assert(bitmap.is_blank() ==> self.pixels() =~= before);
    }

    /// Accepts a path and draws nothing.
    pub fn paint_path(&mut self, path: PathInfo) -> (r: Result<(), DeviceError>)
        ensures
            r is Ok,
            *final(self) == *old(self),
    {
        Ok(())
    }

    /// Draws a text request on the open page, glyph by glyph in the
    /// request's order. The bounding box's width is mapped onto the page's
    /// width; glyph `n` has its left edge at `text.column(width, n)` and
    /// stands on the baseline. The pen moves on by each glyph's advance,
    /// whatever its bitmap holds.
    ///
    /// A request without glyphs succeeds and draws nothing, whatever else
    /// it holds. One with glyphs needs an open page and a bounding box with
    /// a width: without them nothing is drawn and the error says which.
    pub fn show_text(&mut self, text: &TextInfo) -> (r: Result<(), DeviceError>)
        requires
            old(self).wf(),
        ensures
            final(self).wf(),
            final(self).same_frame(old(self)),
            text.glyphs@.len() == 0 ==> r is Ok,
            text.glyphs@.len() > 0 && !old(self).page_open() ==> r == Err::<(), DeviceError>(
                DeviceError::NoPage,
            ),
            text.glyphs@.len() > 0 && old(self).page_open() && text.bbox.width == 0 ==> r == Err::<
                (),
                DeviceError,
            >(DeviceError::EmptyBoundingBox),
            text.glyphs@.len() > 0 && old(self).page_open() && text.bbox.width != 0 ==> r is Ok,
            r is Err ==> final(self).pixels() == old(self).pixels(),
            text.glyphs@.len() == 0 ==> final(self).pixels() == old(self).pixels(),
            r is Ok ==> final(self).pixels() == inked(
                old(self).pixels(),
                old(self).page_width(),
                old(self).page_height(),
                text,
            ),
    {
        if text.glyphs.len() == 0 {
            assert(self.pixels() =~= inked(
                self.pixels(),
                self.page_width(),
                self.page_height(),
                text,
            ));
            return Ok(());
        }
        if !self.open {
            return Err(DeviceError::NoPage);
        }
        if text.bbox.width == 0 {
            return Err(DeviceError::EmptyBoundingBox);
        }
        let w: u32 = width_of(&self.image);
        let h: u32 = height_of(&self.image);
        let box_width: u32 = text.bbox.width;
        let ghost before = self.pixels();
        assert(text.y as u64 * w as u64 <= 0xffff_ffff * 0xffff_ffff) by (nonlinear_arith)
            requires
                text.y <= 0xffff_ffff,
                w <= 0xffff_ffff,
        ;
        let baseline: u64 = (text.y as u64 * w as u64) / (box_width as u64);
        assert(self.pixels() =~= inked_before(before, w as nat, h as nat, text, 0));
        let mut pen: u128 = text.x as u128;
        let mut n: usize = 0;
        while n < text.glyphs.len()
            invariant
                n <= text.glyphs@.len(),
                self.wf(),
                self.same_frame(old(self)),
                w == self.page_width(),
                h == self.page_height(),
                box_width == text.bbox.width,
                box_width != 0,
                baseline == text.baseline(w as int),
                baseline <= 0xffff_ffff * 0xffff_ffff,
                pen == text.pen(n as int),
                pen <= (n + 1) * 0xffff_ffff,
                self.pixels() == inked_before(before, w as nat, h as nat, text, n as int),
            decreases text.glyphs@.len() - n,
        {
            let glyph = &text.glyphs[n];
            assert(pen * w <= 0xffff_ffff_ffff_ffff_ffff_ffff_ffff_ffff) by (nonlinear_arith)
                requires
                    pen <= (n + 1) * 0xffff_ffff,
                    n < 0x1_0000_0000_0000_0000,
                    w <= 0xffff_ffff,
            ;
            let column: u128 = (pen * (w as u128)) / (box_width as u128);
            let y: u64 = baseline + glyph.bitmap.rows as u64;
            if column <= 0xffff_ffff {
                self.draw_char(column as u32, y, &glyph.bitmap);
            }
            assert(self.pixels() =~= inked_before(before, w as nat, h as nat, text, n + 1));
            pen = pen + glyph.advance as u128;
            n = n + 1;
        }
        Ok(())
    }

    /// Ends the page: returns its index in the run and its image, encoded
    /// as a PNG file. Ending an open page closes it and counts it, so each
    /// page that is begun gets an index of its own.
    ///
    /// Ending a page once more, with no page begun since, gives its index
    /// and the encoding of the image once more and changes nothing: where
    /// nothing was drawn in between, that is the same output. Before the
    /// first page there is nothing to end. On any error the device is left
    /// as it was.
    pub fn end_page(&mut self) -> (r: Result<PageOutput, DeviceError>)
        ensures
            final(self).x_res() == old(self).x_res(),
            final(self).y_res() == old(self).y_res(),
            final(self).page_width() == old(self).page_width(),
            final(self).page_height() == old(self).page_height(),
            final(self).pixels() == old(self).pixels(),
            r is Ok <==> old(self).current_index() is Some && png_encoding(
                old(self).page_width(),
                old(self).page_height(),
                old(self).pixels(),
            ) is Some,
            !old(self).page_open() && old(self).pages_finished() == 0 <==> r == Err::<
                PageOutput,
                DeviceError,
            >(DeviceError::NoPage),
            old(self).page_open() && old(self).pages_finished() == u64::MAX <==> r == Err::<
                PageOutput,
                DeviceError,
            >(DeviceError::TooManyPages),
            old(self).current_index() is Some && png_encoding(
                old(self).page_width(),
                old(self).page_height(),
                old(self).pixels(),
            ) is None <==> r matches Err(DeviceError::Encoding(_)),
            match r {
                Ok(out) => {
                    &&& Some(out.index as nat) == old(self).current_index()
                    &&& Some(out.png@) == png_encoding(
                        old(self).page_width(),
                        old(self).page_height(),
                        old(self).pixels(),
                    )
                    &&& !final(self).page_open()
                    &&& final(self).pages_finished() == out.index + 1
                    &&& final(self).current_index() == old(self).current_index()
                },
                Err(_) => {
                    &&& final(self).page_open() == old(self).page_open()
                    &&& final(self).pages_finished() == old(self).pages_finished()
                },
            },
            !old(self).page_open() ==> final(self).pages_finished() == old(self).pages_finished(),
    {
        let index: u64 = if self.open {
            if self.finished == u64::MAX {
                return Err(DeviceError::TooManyPages);
            }
            self.finished
        } else {
            if self.finished == 0 {
                return Err(DeviceError::NoPage);
            }
            self.finished - 1
        };
        let encoded = encode_png(&self.image);
        let r = page_output(index, encoded);
        if r.is_ok() {
            self.open = false;
            self.finished = index + 1;
        }
        r
    }

    /// The scales of `text` on the current image. Both sides of the
    /// bounding box are mapped onto the page's width, since a glyph bitmap
    /// is rasterized at one scale: a square box gives the same scale three
    /// times. A box without width or height has no scale.
    pub fn text_scale(&self, text: &TextInfo) -> (r: Result<TextScale, DeviceError>)
        ensures
            text.bbox.width == 0 || text.bbox.height == 0 <==> r is Err,
            r matches Err(e) ==> e == DeviceError::EmptyBoundingBox,
            r matches Ok(s) ==> {
                &&& s.x == milli_scale(self.page_width(), text.bbox.width as nat)
                &&& s.y == milli_scale(self.page_width(), text.bbox.height as nat)
                &&& is_mean_scale(s.glyph as nat, s.x as nat, s.y as nat)
            },
    {
        if text.bbox.width == 0 || text.bbox.height == 0 {
            return Err(DeviceError::EmptyBoundingBox);
        }
        let w: u64 = width_of(&self.image) as u64;
        let x: u64 = (1_000_000 * w) / (text.bbox.width as u64);
        let y: u64 = (1_000_000 * w) / (text.bbox.height as u64);
        assert(x * x + y * y <= 2 * (4_294_967_295_000_000 * 4_294_967_295_000_000))
            by (nonlinear_arith)
            requires
                x <= 4_294_967_295_000_000,
                y <= 4_294_967_295_000_000,
        ;
        let squares: u128 = (x as u128) * (x as u128) + (y as u128) * (y as u128);
        let glyph: u64 = floor_sqrt(squares / 2);
        Ok(TextScale { x, y, glyph })
    }
}

} // verus!

//! Text draw requests: glyph coverage bitmaps, advances, and where on a page
//! each glyph of a request lands.

use vstd::prelude::*;
use crate::geometry::Rectangle;

verus! {

/// A coverage bitmap: `rows` rows of `width` cells each, row by row from the
/// top. A cell that is not zero is covered.
#[derive(Debug)]
pub struct GlyphBitmap {
    pub width: u32,
    pub rows: u32,
    pub buffer: Vec<u8>,
}

impl GlyphBitmap {
    /// Whether the buffer holds exactly one value for each cell.
    pub open spec fn well_formed(&self) -> bool {
        self.buffer@.len() == self.width * self.rows
    }

    /// The coverage of the cell in row `i`, column `j`. A cell outside the
    /// bitmap, or one that the buffer is too short to hold, has none.
    pub open spec fn coverage(&self, i: int, j: int) -> u8 {
        if 0 <= i < self.rows && 0 <= j < self.width && i * self.width + j < self.buffer@.len() {
            self.buffer@[i * self.width + j]
        } else {
            0
        }
    }

    /// Whether no cell is covered.
    pub open spec fn is_blank(&self) -> bool {
        forall|i: int, j: int| #[trigger] self.coverage(i, j) == 0
    }

    /// Whether every cell is covered.
    pub open spec fn is_opaque(&self) -> bool {
        forall|i: int, j: int|
            0 <= i < self.rows && 0 <= j < self.width ==> #[trigger] self.coverage(i, j) != 0
    }

    /// A bitmap of the given size over `buffer`, where the buffer's length is
    /// `width * rows`; `None` where it is not.
    pub fn new(width: u32, rows: u32, buffer: Vec<u8>) -> (r: Option<GlyphBitmap>)
        ensures
            r is Some <==> buffer@.len() == width * rows,
            r matches Some(b) ==> b.width == width && b.rows == rows && b.buffer@ == buffer@
                && b.well_formed(),
    {
        assert(width as u64 * rows as u64 <= 0xffff_ffff * 0xffff_ffff) by (nonlinear_arith)
            requires
                width <= 0xffff_ffff,
                rows <= 0xffff_ffff,
        ;
        let cells: u64 = width as u64 * rows as u64;
        let len: usize = buffer.len();
        if len as u64 == cells {
            Some(GlyphBitmap { width, rows, buffer })
        } else {
            None
        }
    }

    /// The coverage of the cell in row `i`, column `j`.
    pub fn cell(&self, i: u32, j: u32) -> (c: u8)
        ensures
            c == self.coverage(i as int, j as int),
    {
        if i >= self.rows || j >= self.width {
            return 0;
        }
        assert(i as u64 * self.width as u64 + j as u64 <= 0xffff_ffff * 0xffff_ffff + 0xffff_ffff)
            by (nonlinear_arith)
            requires
                i <= 0xffff_ffff,
                self.width <= 0xffff_ffff,
                j <= 0xffff_ffff,
        ;
        let index: u64 = i as u64 * self.width as u64 + j as u64;
        let len: usize = self.buffer.len();
        if index < len as u64 {
            self.buffer[index as usize]
        } else {
            0
        }
    }
}

/// One character of a text request: its code, how far it moves the pen, in
/// thousandths of the unit of the request's bounding box, and its coverage
/// bitmap.
#[derive(Debug)]
pub struct Glyph {
    pub code: u32,
    pub advance: u32,
    pub bitmap: GlyphBitmap,
}

/// A text draw request: where the pen starts, the bounding box whose width
/// is mapped onto the page's width, and the glyphs in the order in which
/// they are drawn. The origin and the box are in thousandths of a unit, as
/// the advances are.
#[derive(Debug)]
pub struct TextInfo {
    pub x: u32,
    pub y: u32,
    pub bbox: Rectangle,
    pub glyphs: Vec<Glyph>,
}

/// Whether a bitmap whose top left cell lies at column `left`, row `top` of
/// a page covers the pixel at column `px`, row `py`.
pub open spec fn glyph_covers(bitmap: &GlyphBitmap, left: int, top: int, px: int, py: int) -> bool {
    bitmap.coverage(py - top, px - left) != 0
}

impl TextInfo {
    /// The pen's position before glyph `n`, in thousandths of the unit of
    /// the bounding box: the origin and the advances of the glyphs before
    /// it.
    pub open spec fn pen(&self, n: int) -> int
        decreases n,
    {
        if n <= 0 {
            self.x as int
        } else {
            self.pen(n - 1) + self.glyphs@[n - 1].advance
        }
    }

    /// The pen's position before glyph `n`, times `page_width`, summed up
    /// term by term: each advance is scaled by itself.
    pub open spec fn scaled_pen(&self, page_width: int, n: int) -> int
        decreases n,
    {
        if n <= 0 {
            self.x * page_width
        } else {
            self.scaled_pen(page_width, n - 1) + self.glyphs@[n - 1].advance * page_width
        }
    }

    /// The pixel column at which glyph `n` starts on a page `page_width`
    /// pixels wide: the pen's position times the horizontal scale
    /// `page_width / bbox.width`, rounded toward zero.
    pub open spec fn column(&self, page_width: int, n: int) -> int {
        self.pen(n) * page_width / (self.bbox.width as int)
    }

    /// The baseline's distance from the bottom of the page, in pixels: the
    /// origin's `y` times the same scale, rounded toward zero.
    pub open spec fn baseline(&self, page_width: int) -> int {
        self.y * page_width / (self.bbox.width as int)
    }

    /// The pixel row of the top of glyph `n` on a page of the given size.
    /// Document `y` grows upward and pixel rows grow downward: a glyph
    /// stands on the baseline.
    pub open spec fn top(&self, page_width: int, page_height: int, n: int) -> int {
        page_height - (self.baseline(page_width) + self.glyphs@[n].bitmap.rows)
    }

    /// Whether glyph `k`, placed at its column on the baseline, covers the
    /// pixel at column `px`, row `py`.
    pub open spec fn glyph_covers_at(
        &self,
        page_width: int,
        page_height: int,
        k: int,
        px: int,
        py: int,
    ) -> bool {
        glyph_covers(
            &self.glyphs@[k].bitmap,
            self.column(page_width, k),
            self.top(page_width, page_height, k),
            px,
            py,
        )
    }

    /// Whether one of the first `n` glyphs covers the pixel at column `px`,
    /// row `py`.
    pub open spec fn covers_before(
        &self,
        page_width: int,
        page_height: int,
        n: int,
        px: int,
        py: int,
    ) -> bool
        decreases n,
    {
        if n <= 0 {
            false
        } else {
            self.covers_before(page_width, page_height, n - 1, px, py) || self.glyph_covers_at(
                page_width,
                page_height,
                n - 1,
                px,
                py,
            )
        }
    }

    /// Whether a glyph of the request covers the pixel at column `px`, row
    /// `py`.
    pub open spec fn covers(&self, page_width: int, page_height: int, px: int, py: int) -> bool {
        self.covers_before(page_width, page_height, self.glyphs@.len() as int, px, py)
    }
}

} // verus!

//! What holds of drawing, whatever the page and the request.

use vstd::prelude::*;
use crate::device::{black, inked, inked_before, stamped};
use crate::glyph::{glyph_covers, GlyphBitmap, TextInfo};
use crate::raster::{fills_grid, on_grid, Color};

verus! {

/// Whether every glyph of a request has a blank bitmap.
pub open spec fn all_blank(text: &TextInfo) -> bool {
    forall|k: int| 0 <= k < text.glyphs@.len() ==> (#[trigger] text.glyphs@[k]).bitmap.is_blank()
}

/// A request without glyphs covers no pixel, so drawing it leaves the page
/// as it was.
pub proof fn empty_text_leaves_page(
    before: Map<(int, int), Color>,
    width: nat,
    height: nat,
    text: &TextInfo,
)
    requires
        fills_grid(before, width, height),
        text.glyphs@.len() == 0,
    ensures
        inked(before, width, height, text) == before,
{
    assert(inked(before, width, height, text) =~= before);
}

/// A bitmap without a covered cell covers no pixel, wherever it is placed.
pub proof fn blank_bitmap_leaves_page(
    before: Map<(int, int), Color>,
    width: nat,
    height: nat,
    bitmap: &GlyphBitmap,
    left: int,
    top: int,
)
    requires
        fills_grid(before, width, height),
        bitmap.is_blank(),
    ensures
        stamped(before, width, height, bitmap, left, top) == before,
{
    assert(stamped(before, width, height, bitmap, left, top) =~= before);
}

/// None of the first `n` glyphs of a request covers a pixel if all of its
/// bitmaps are blank.
pub proof fn blank_glyphs_cover_nothing(
    text: &TextInfo,
    width: int,
    height: int,
    n: int,
    px: int,
    py: int,
)
    requires
        all_blank(text),
        n <= text.glyphs@.len(),
    ensures
        !text.covers_before(width, height, n, px, py),
    decreases n,
{
    if n > 0 {
        blank_glyphs_cover_nothing(text, width, height, n - 1, px, py);
        assert(text.glyphs@[n - 1].bitmap.is_blank());
    }
}

/// Drawing glyphs whose bitmaps are all blank leaves the page as it was,
/// and still moves the pen: before glyph `n + 1` it stands one advance
/// further than before glyph `n`.
pub proof fn blank_text_leaves_page(
    before: Map<(int, int), Color>,
    width: nat,
    height: nat,
    text: &TextInfo,
)
    requires
        fills_grid(before, width, height),
        all_blank(text),
    ensures
        inked(before, width, height, text) == before,
        forall|n: int|
            0 <= n < text.glyphs@.len() ==> #[trigger] text.pen(n + 1) == text.pen(n)
                + text.glyphs@[n].advance,
{
    assert forall|p: (int, int)| on_grid(width, height, p.0, p.1) implies !text.covers(
        width as int,
        height as int,
        p.0,
        p.1,
    ) by {
        blank_glyphs_cover_nothing(
            text,
            width as int,
            height as int,
            text.glyphs@.len() as int,
            p.0,
            p.1,
        );
    }
    assert(inked(before, width, height, text) =~= before);
}

/// A bitmap whose every cell is covered covers exactly the pixels of the
/// rectangle it is placed on.
pub proof fn opaque_bitmap_covers_its_rectangle(
    bitmap: &GlyphBitmap,
    left: int,
    top: int,
    px: int,
    py: int,
)
    requires
        bitmap.is_opaque(),
    ensures
        glyph_covers(bitmap, left, top, px, py) <==> (left <= px < left + bitmap.width && top <= py
            < top + bitmap.rows),
{
    if left <= px < left + bitmap.width && top <= py < top + bitmap.rows {
        assert(bitmap.coverage(py - top, px - left) != 0);
    }
}

/// One of the first `n` glyphs covers a pixel exactly if there is a glyph
/// among them that, placed at its column on the baseline, covers it.
pub proof fn covered_by_some_glyph(
    text: &TextInfo,
    width: int,
    height: int,
    n: int,
    px: int,
    py: int,
)
    requires
        0 <= n <= text.glyphs@.len(),
    ensures
        text.covers_before(width, height, n, px, py) <==> exists|k: int|
            0 <= k < n && #[trigger] text.glyph_covers_at(width, height, k, px, py),
    decreases n,
{
    if n > 0 {
        covered_by_some_glyph(text, width, height, n - 1, px, py);
        if text.covers_before(width, height, n, px, py) {
            if text.glyph_covers_at(width, height, n - 1, px, py) {
            } else {
                let k = choose|k: int|
                    0 <= k < n - 1 && #[trigger] text.glyph_covers_at(width, height, k, px, py);
                assert(0 <= k < n && text.glyph_covers_at(width, height, k, px, py));
            }
        }
    }
}

/// Drawing a request of one glyph whose every cell is covered turns the
/// pixels of the glyph's rectangle black, as far as they lie on the page,
/// and leaves every other pixel as it was.
pub proof fn opaque_glyph_inks_its_rectangle(
    before: Map<(int, int), Color>,
    width: nat,
    height: nat,
    text: &TextInfo,
    px: int,
    py: int,
)
    requires
        text.glyphs@.len() == 1,
        text.glyphs@[0].bitmap.is_opaque(),
        on_grid(width, height, px, py),
    ensures
        ({
            let left = text.column(width as int, 0);
            let top = text.top(width as int, height as int, 0);
            let bitmap = text.glyphs@[0].bitmap;
            inked(before, width, height, text)[(px, py)] == if left <= px < left + bitmap.width
                && top <= py < top + bitmap.rows {
                black()
            } else {
                before[(px, py)]
            }
        }),
{
    let left = text.column(width as int, 0);
    let top = text.top(width as int, height as int, 0);
    opaque_bitmap_covers_its_rectangle(&text.glyphs@[0].bitmap, left, top, px, py);
    assert(!text.covers_before(width as int, height as int, 0, px, py));
    assert(text.covers(width as int, height as int, px, py) == glyph_covers(
        &text.glyphs@[0].bitmap,
        left,
        top,
        px,
        py,
    ));
}

/// The pen before glyph `n`, scaled onto the page, is the scaled origin
/// and the scaled advances of the glyphs before it, summed in order: glyph
/// `n` starts at that sum over the bounding box's width, rounded toward
/// zero.
pub proof fn pen_is_sum_of_scaled_advances(text: &TextInfo, page_width: int, n: int)
    requires
        0 <= n <= text.glyphs@.len(),
    ensures
        text.pen(n) * page_width == text.scaled_pen(page_width, n),
        text.column(page_width, n) == text.scaled_pen(page_width, n) / (text.bbox.width as int),
    decreases n,
{
    if n > 0 {
        pen_is_sum_of_scaled_advances(text, page_width, n - 1);
        let earlier = text.pen(n - 1);
        let advance = text.glyphs@[n - 1].advance as int;
        assert((earlier + advance) * page_width == earlier * page_width + advance * page_width)
            by (nonlinear_arith);
    }
}

/// The pen never moves back: glyphs are placed from left to right in the
/// order of the request.
pub proof fn pen_never_moves_back(text: &TextInfo, m: int, n: int)
    requires
        0 <= m <= n <= text.glyphs@.len(),
    ensures
        text.pen(m) <= text.pen(n),
    decreases n,
{
    if m < n {
        pen_never_moves_back(text, m, n - 1);
    }
}

/// Ink stays: a pixel that was black before a bitmap was drawn is black
/// after it.
pub proof fn stamping_keeps_ink(
    before: Map<(int, int), Color>,
    width: nat,
    height: nat,
    bitmap: &GlyphBitmap,
    left: int,
    top: int,
    px: int,
    py: int,
)
    requires
        on_grid(width, height, px, py),
        before[(px, py)] == black(),
    ensures
        stamped(before, width, height, bitmap, left, top)[(px, py)] == black(),
{
}

/// Ink stays: a pixel that was black before a request was drawn is black
/// after it.
pub proof fn text_keeps_ink(
    before: Map<(int, int), Color>,
    width: nat,
    height: nat,
    text: &TextInfo,
    px: int,
    py: int,
)
    requires
        on_grid(width, height, px, py),
        before[(px, py)] == black(),
    ensures
        inked(before, width, height, text)[(px, py)] == black(),
{
}

/// Drawing the first `n + 1` glyphs of a request is drawing the first `n`
/// and then stamping glyph `n` at its column, on the baseline.
pub proof fn inking_is_stamping_in_turn(
    before: Map<(int, int), Color>,
    width: nat,
    height: nat,
    text: &TextInfo,
    n: int,
)
    requires
        0 <= n < text.glyphs@.len(),
    ensures
        inked_before(before, width, height, text, n + 1) == stamped(
            inked_before(before, width, height, text, n),
            width,
            height,
            &text.glyphs@[n].bitmap,
            text.column(width as int, n),
            text.top(width as int, height as int, n),
        ),
{
    assert(inked_before(before, width, height, text, n + 1) =~= stamped(
        inked_before(before, width, height, text, n),
        width,
        height,
        &text.glyphs@[n].bitmap,
        text.column(width as int, n),
        text.top(width as int, height as int, n),
    ));
}

} // verus!

//! Rectangles in thousandths of a document unit, and the scaling from
//! document units to pixels.
//!
//! Lengths in document space, and resolutions, are whole numbers of
//! thousandths: 612 units are `612_000`, 300 pixels per inch are `300_000`.

use vstd::prelude::*;

verus! {

/// What a resolution times an extent, both in thousandths, is divided by to
/// give pixels: 72 document units per inch, times a thousand for each of
/// the two.
pub const SCALE_DIVISOR: u64 = 72_000_000;

/// An axis-parallel rectangle; each field is in thousandths of a document
/// unit (1/72 inch).
#[derive(Clone, Copy, Debug, PartialEq, Eq, Structural)]
pub struct Rectangle {
    pub x: u32,
    pub y: u32,
    pub width: u32,
    pub height: u32,
}

impl Rectangle {
    pub fn new(x: u32, y: u32, width: u32, height: u32) -> (r: Rectangle)
        ensures
            r == (Rectangle { x, y, width, height }),
    {
        Rectangle { x, y, width, height }
    }

    pub fn width(&self) -> (w: u32)
        ensures
            w == self.width,
    {
        self.width
    }

    pub fn height(&self) -> (h: u32)
        ensures
            h == self.height,
    {
        self.height
    }
}

/// The number of pixels that an extent takes at a resolution, the extent in
/// thousandths of a document unit and the resolution in thousandths of a
/// pixel per inch: `resolution / 72 * extent`, rounded toward zero.
pub open spec fn scaled_extent(resolution: nat, extent: nat) -> nat {
    (resolution * extent) / 72_000_000
}

/// Computes [`scaled_extent`]. The product of two `u32` fits in a `u64`.
pub fn scale_extent(resolution: u32, extent: u32) -> (pixels: u64)
    ensures
        pixels == scaled_extent(resolution as nat, extent as nat),
{
    assert(resolution as u64 * extent as u64 <= 0xffff_ffff * 0xffff_ffff) by (nonlinear_arith)
        requires
            resolution <= 0xffff_ffff,
            extent <= 0xffff_ffff,
    ;
    (resolution as u64 * extent as u64) / SCALE_DIVISOR
}

/// Whether `root` is the square root of `value`, rounded toward zero.
pub open spec fn is_floor_sqrt(root: nat, value: nat) -> bool {
    root * root <= value < (root + 1) * (root + 1)
}

/// The square root of `value`, rounded toward zero.
pub fn floor_sqrt(value: u128) -> (root: u64)
    ensures
        is_floor_sqrt(root as nat, value as nat),
{
    let mut low: u128 = 0;
    let mut high: u128 = 0x1_0000_0000_0000_0000;
    assert(value < high * high) by (nonlinear_arith)
        requires
            value <= 0xffff_ffff_ffff_ffff_ffff_ffff_ffff_ffff,
            high == 0x1_0000_0000_0000_0000,
    ;
    while high - low > 1
        invariant
            low < high <= 0x1_0000_0000_0000_0000,
            low * low <= value < high * high,
        decreases high - low,
    {
        let middle: u128 = low + (high - low) / 2;
        assert(middle * middle <= 0xffff_ffff_ffff_ffff * 0xffff_ffff_ffff_ffff)
            by (nonlinear_arith)
            requires
                middle <= 0xffff_ffff_ffff_ffff,
        ;
        if middle * middle <= value {
            low = middle;
        } else {
            high = middle;
        }
    }
    assert(high == low + 1);
    low as u64
}

/// A scale factor in thousandths of a pixel per document unit, for an
/// extent in thousandths of a unit that is mapped onto `pixels` pixels:
/// `1000 * pixels / (extent / 1000)`, rounded toward zero.
pub open spec fn milli_scale(pixels: nat, extent: nat) -> nat
    recommends
        extent > 0,
{
    (1_000_000 * pixels) / extent
}

/// The one scale that stands for two: the root of the mean of their
/// squares, rounded toward zero.
pub open spec fn is_mean_scale(mean: nat, a: nat, b: nat) -> bool {
    is_floor_sqrt(mean, (a * a + b * b) / 2)
}

} // verus!

//! The pixel buffer of a page, kept in an `image::RgbImage`
//! (an `ImageBuffer` of 8-bit RGB pixels).
//!
//! Everything in this module is believed, not proved: it says what the
//! buffer's methods do, and the device is verified against that.

use vstd::prelude::*;

verus! {

/// The pixel buffer of one page: an `image::RgbImage`, held out of the
/// verifier's sight. What it holds is known only through [`image_width`],
/// [`image_height`] and [`image_pixels`], and only the functions of this
/// module touch it.
#[verifier::external_body]
pub struct PageImage {
    buffer: image::RgbImage,
}

/// `image::ImageError`, what the encoder fails with; nothing is read from it.
#[verifier::external_type_specification]
#[verifier::external_body]
pub struct ExImageError(image::ImageError);

/// A colour: red, green and blue.
pub type Color = (u8, u8, u8);

/// The number of pixel columns of a buffer, as `ImageBuffer::width` gives it.
pub uninterp spec fn image_width(img: PageImage) -> nat;

/// The number of pixel rows of a buffer, as `ImageBuffer::height` gives it.
pub uninterp spec fn image_height(img: PageImage) -> nat;

/// The colour of each pixel of a buffer, by column and row, the row counted
/// from the top.
pub uninterp spec fn image_pixels(img: PageImage) -> Map<(int, int), Color>;

/// What `ImageBuffer::write_to` writes, as a PNG file into memory, for a
/// buffer of the given size and pixels: the bytes of the file, or `None`
/// where the encoder fails.
pub uninterp spec fn png_encoding(width: nat, height: nat, pixels: Map<(int, int), Color>) -> Option<
    Seq<u8>,
>;

/// Whether column `x`, row `y` lies on a grid of `width` by `height` pixels.
pub open spec fn on_grid(width: nat, height: nat, x: int, y: int) -> bool {
    0 <= x < width && 0 <= y < height
}

/// Whether `pixels` has a colour for each pixel of a `width` by `height`
/// grid and for nothing else.
pub open spec fn fills_grid(pixels: Map<(int, int), Color>, width: nat, height: nat) -> bool {
    forall|x: int, y: int| #[trigger]
        pixels.dom().contains((x, y)) <==> on_grid(width, height, x, y)
}

/// A grid of `width` by `height` pixels, all of one colour.
pub open spec fn uniform_pixels(width: nat, height: nat, color: Color) -> Map<(int, int), Color> {
    Map::new(|p: (int, int)| on_grid(width, height, p.0, p.1), |p: (int, int)| color)
}

/// Whether a buffer of `width` by `height` RGB pixels can be allocated.
pub open spec fn allocatable(width: nat, height: nat) -> bool {
    3 * (width * height) <= isize::MAX
}

/// `ImageBuffer::width`: the buffer's number of columns.
#[verifier::external_body]
pub(crate) fn width_of(img: &PageImage) -> (w: u32)
    ensures
        w == image_width(*img),
{
    img.buffer.width()
}

/// `ImageBuffer::height`: the buffer's number of rows.
#[verifier::external_body]
pub(crate) fn height_of(img: &PageImage) -> (h: u32)
    ensures
        h == image_height(*img),
{
    img.buffer.height()
}

/// `ImageBuffer::new`: a buffer of the given size whose every channel is
/// zero. It panics where the buffer's length does not fit, which `requires`
/// leaves out.
#[verifier::external_body]
pub(crate) fn zeroed_image(width: u32, height: u32) -> (img: PageImage)
    requires
        allocatable(width as nat, height as nat),
    ensures
        image_width(img) == width,
        image_height(img) == height,
        image_pixels(img) == uniform_pixels(width as nat, height as nat, (0u8, 0u8, 0u8)),
{
    PageImage { buffer: image::RgbImage::new(width, height) }
}

/// `ImageBuffer::from_pixel`: a buffer of the given size whose every pixel
/// has the given colour. It panics as `ImageBuffer::new` does.
#[verifier::external_body]
pub(crate) fn filled_image(width: u32, height: u32, color: Color) -> (img: PageImage)
    requires
        allocatable(width as nat, height as nat),
    ensures
        image_width(img) == width,
        image_height(img) == height,
        image_pixels(img) == uniform_pixels(width as nat, height as nat, color),
{
    let pixel = image::Rgb([color.0, color.1, color.2]);
    PageImage { buffer: image::RgbImage::from_pixel(width, height, pixel) }
}

/// `ImageBuffer::get_pixel`: the colour at column `x`, row `y`. It panics
/// outside the buffer, which `requires` leaves out.
#[verifier::external_body]
pub(crate) fn color_at(img: &PageImage, x: u32, y: u32) -> (color: Color)
    requires
        on_grid(image_width(*img), image_height(*img), x as int, y as int),
    ensures
        color == image_pixels(*img)[(x as int, y as int)],
{
    let p = img.buffer.get_pixel(x, y);
    (p.0[0], p.0[1], p.0[2])
}

/// `ImageBuffer::put_pixel`: sets the colour at column `x`, row `y`, and
/// leaves the size and every other pixel as they were. It panics outside
/// the buffer, which `requires` leaves out.
#[verifier::external_body]
pub(crate) fn set_color(img: &mut PageImage, x: u32, y: u32, color: Color)
    requires
        on_grid(image_width(*old(img)), image_height(*old(img)), x as int, y as int),
    ensures
        image_width(*final(img)) == image_width(*old(img)),
        image_height(*final(img)) == image_height(*old(img)),
        image_pixels(*final(img)) == image_pixels(*old(img)).insert((x as int, y as int), color),
{
    img.buffer.put_pixel(x, y, image::Rgb([color.0, color.1, color.2]));
}

/// `ImageBuffer::write_to` with `ImageFormat::Png`, into memory: the bytes
/// of the file, or the encoder's error. Which of the two comes depends on
/// the buffer's size and pixels alone; the encoder refuses an image without
/// columns or without rows.
#[verifier::external_body]
pub(crate) fn encode_png(img: &PageImage) -> (r: Result<Vec<u8>, image::ImageError>)
    ensures
        match r {
            Ok(bytes) => png_encoding(image_width(*img), image_height(*img), image_pixels(*img))
                == Some(bytes@),
            Err(_) => png_encoding(image_width(*img), image_height(*img), image_pixels(*img))
                is None,
        },
        image_width(*img) == 0 || image_height(*img) == 0 ==> r is Err,
{
    let mut out = std::io::Cursor::new(Vec::new());
    match img.buffer.write_to(&mut out, image::ImageFormat::Png) {
        Ok(()) => Ok(out.into_inner()),
        Err(e) => Err(e),
    }
}

/// `Display` for `image::ImageError`, through `format!`: the error's
/// message. Nothing is claimed of what it says.
#[verifier::external_body]
pub(crate) fn error_text(error: &image::ImageError) -> (text: String) {
    format!("{}", error)
}

} // verus!

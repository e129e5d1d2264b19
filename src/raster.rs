//! The calls into the `image` crate that the dithering logic makes, each with
//! the contract that the crate's source shows for it.

use vstd::prelude::*;
use image::RgbaImage;

verus! {

/// An RGBA image of the image crate, held whole: Verus cannot read the
/// crate's `ImageBuffer` declaration, so the struct is opaque and its
/// contents are known through `canvas_dimensions` and `canvas_samples`.
#[verifier::external_body]
pub struct RgbaCanvas {
    image: RgbaImage,
}

/// The image crate's error type, carried through opaque from `decode_gray`.
#[verifier::external_type_specification]
#[verifier::external_body]
pub struct ExImageError(image::ImageError);

/// The width and height, in pixels, of a canvas.
pub uninterp spec fn canvas_dimensions(c: RgbaCanvas) -> (u32, u32);

/// The samples of a canvas, four per pixel (red, green, blue, alpha), row
/// after row from the top.
pub uninterp spec fn canvas_samples(c: RgbaCanvas) -> Seq<u8>;

/// The sRGB luminance that the image crate assigns to an 8-bit RGB pixel:
/// the weighted sum with weights 2126, 7152 and 722 over 10000, rounded down.
pub open spec fn srgb_luma(r: u8, g: u8, b: u8) -> int {
    (2126 * r + 7152 * g + 722 * b) / 10000
}

/// The first index of pixel `(x, y)` in the samples of an RGBA image `width`
/// pixels wide.
pub open spec fn rgba_offset(width: int, x: int, y: int) -> int {
    4 * (y * width + x)
}

/// The four samples of pixel `(x, y)`.
pub open spec fn canvas_pixel(c: RgbaCanvas, x: int, y: int) -> Seq<u8> {
    let o = rgba_offset(canvas_dimensions(c).0 as int, x, y);
    canvas_samples(c).subrange(o, o + 4)
}

/// Pixel `(x, y)` of a `width` by `height` raster has an index below
/// `width * height`.
pub proof fn lemma_row_major_index(x: int, y: int, width: int, height: int)
    requires
        0 <= x < width,
        0 <= y < height,
    ensures
        0 <= y * width + x < width * height,
{
    assert(y * width + x < width * height) by (nonlinear_arith)
        requires
            0 <= x < width,
            0 <= y < height,
    ;
    assert(0 <= y * width) by (nonlinear_arith)
        requires
            0 <= x < width,
            0 <= y,
    ;
}

impl RgbaCanvas {
    /// Relies on `ImageBuffer::new`: a canvas of the given size whose samples
    /// are all zero (transparent black). It panics only when four times the
    /// width, or the sample count, overflows `usize`.
    #[verifier::external_body]
    pub(crate) fn blank(width: u32, height: u32) -> (r: RgbaCanvas)
        requires
            4 * width <= usize::MAX,
            4 * width * height <= usize::MAX,
        ensures
            canvas_dimensions(r) == (width, height),
            canvas_samples(r) == Seq::new((4 * width * height) as nat, |i: int| 0u8),
    {
        RgbaCanvas { image: RgbaImage::new(width, height) }
    }

    /// Relies on `ImageBuffer::put_pixel`: the four samples of pixel `(x, y)`
    /// become `px` and nothing else changes. It panics only outside the image.
    #[verifier::external_body]
    pub(crate) fn put_rgba(&mut self, x: u32, y: u32, px: [u8; 4])
        requires
            x < canvas_dimensions(*old(self)).0,
            y < canvas_dimensions(*old(self)).1,
        ensures
            canvas_dimensions(*final(self)) == canvas_dimensions(*old(self)),
            canvas_samples(*final(self)).len() == canvas_samples(*old(self)).len(),
            forall|i: int|
                0 <= i < canvas_samples(*old(self)).len() ==> #[trigger] canvas_samples(*final(self))[i]
                    == {
                    let o = rgba_offset(canvas_dimensions(*old(self)).0 as int, x as int, y as int);
                    if o <= i < o + 4 {
                        px@[i - o]
                    } else {
                        canvas_samples(*old(self))[i]
                    }
                },
    {
        self.image.put_pixel(x, y, image::Rgba(px));
    }

    /// Relies on `ImageBuffer::dimensions` and `ImageBuffer::into_raw`: the
    /// width, the height and the samples of the canvas.
    #[verifier::external_body]
    pub fn into_parts(self) -> (r: (u32, u32, Vec<u8>))
        ensures
            (r.0, r.1) == canvas_dimensions(self),
            r.2@ == canvas_samples(self),
    {
        let (width, height) = self.image.dimensions();
        (width, height, self.image.into_raw())
    }
}

/// Relies on `ImageBuffer::from_vec` and `DynamicImage::grayscale`: an 8-bit
/// RGB image becomes one sRGB luminance byte per pixel, in the same order.
/// `from_vec` accepts the buffer when three times the width, and the sample
/// count, fit in `usize` and the buffer holds them.
#[verifier::external_body]
pub(crate) fn grayscale_rgb8(rgb: Vec<u8>, width: u32, height: u32) -> (r: Vec<u8>)
    requires
        3 * width <= usize::MAX,
        rgb@.len() == 3 * width * height,
    ensures
        r@.len() == width * height,
        forall|i: int|
            0 <= i < r@.len() ==> #[trigger] r@[i] == srgb_luma(rgb@[3 * i], rgb@[3 * i + 1], rgb@[3 * i + 2]),
{
    let img = image::RgbImage::from_vec(width, height, rgb).expect("buffer holds every pixel");
    image::DynamicImage::ImageRgb8(img).grayscale().into_luma8().into_raw()
}

/// Relies on `image::load_from_memory` followed by `DynamicImage::grayscale`
/// and `into_luma8`: the size of the decoded picture and one luminance byte
/// per pixel. What the bytes decode to also depends on the format hooks
/// registered in the process, so nothing more is stated of the result.
#[verifier::external_body]
pub(crate) fn decode_gray(bytes: &[u8]) -> (r: Result<(u32, u32, Vec<u8>), image::ImageError>)
    ensures
        r matches Ok((w, h, v)) ==> v@.len() == w * h,
{
    match image::load_from_memory(bytes) {
        Ok(img) => {
            let gray = img.grayscale().into_luma8();
            Ok((gray.width(), gray.height(), gray.into_raw()))
        },
        Err(e) => Err(e),
    }
}

} // verus!

//! Ordered dithering: each picture pixel becomes white when its luminance
//! lies above the threshold that a tiled noise mask gives at that spot, and
//! black otherwise.

use vstd::prelude::*;
use vstd::arithmetic::div_mod::lemma_fundamental_div_mod;
use crate::noise::NoiseMask;
use crate::error::DitherError;
use crate::raster::{
    canvas_dimensions, canvas_pixel, canvas_samples, grayscale_rgb8, lemma_row_major_index, rgba_offset, srgb_luma,
    RgbaCanvas,
};

verus! {

/// A picture sample is bright when its luminance lies strictly above the
/// threshold that the noise mask gives at that spot; a tie is dark.
pub open spec fn bright(noise_luma: u8, picture_luma: u8) -> bool {
    picture_luma > noise_luma
}

/// Decides whether a picture sample becomes white against its threshold.
pub fn is_bright(noise_luma: u8, picture_luma: u8) -> (r: bool)
    ensures
        r == bright(noise_luma, picture_luma),
{
    if picture_luma > noise_luma {
        true
    } else {
        false
    }
}

/// Wraps coordinate `n` onto a mask that repeats every `m` pixels.
pub fn wrap(m: u32, n: u32) -> (r: u32)
    requires
        m > 0,
    ensures
        r == n % m,
        r < m,
{
    n % m
}

/// Opaque white, one sample per channel (red, green, blue, alpha).
pub const WHITE: [u8; 4] = [255, 255, 255, 255];

/// Opaque black.
pub const BLACK: [u8; 4] = [0, 0, 0, 255];

/// The colour of a classified pixel.
pub open spec fn tone(is_white: bool) -> Seq<u8> {
    if is_white {
        seq![255u8, 255u8, 255u8, 255u8]
    } else {
        seq![0u8, 0u8, 0u8, 255u8]
    }
}

/// Canvas pixels that the dithering does not write keep the blank canvas's
/// transparent black.
pub open spec fn unwritten() -> Seq<u8> {
    seq![0u8, 0u8, 0u8, 0u8]
}

/// The noise threshold consulted at picture pixel `(x, y)`: the mask repeats
/// in both directions.
pub open spec fn tiled_threshold(noise: NoiseMask, x: int, y: int) -> u8 {
    noise.threshold(x % (noise.spec_width() as int), y % (noise.spec_height() as int))
}

/// The colour that pixel `(x, y)` of a `width` pixels wide luminance raster
/// dithers to.
pub open spec fn dithered_pixel(luma: Seq<u8>, width: int, noise: NoiseMask, x: int, y: int) -> Seq<u8> {
    tone(bright(tiled_threshold(noise, x, y), luma[y * width + x]))
}

/// `c` is the dithering of the `width` by `height` luminance raster `luma`
/// against `noise`, on a canvas `scale` times as wide and as high: the
/// picture's region holds white or black pixels by the threshold rule, the
/// rest of the canvas stays transparent black.
pub open spec fn is_dithering(
    c: RgbaCanvas,
    luma: Seq<u8>,
    width: int,
    height: int,
    scale: int,
    noise: NoiseMask,
) -> bool {
    let cw = width * scale;
    let ch = height * scale;
    &&& canvas_dimensions(c).0 == cw
    &&& canvas_dimensions(c).1 == ch
    &&& canvas_samples(c).len() == 4 * cw * ch
    &&& forall|x: int, y: int|
        0 <= x < cw && 0 <= y < ch ==> #[trigger] canvas_pixel(c, x, y) == if x < width && y < height {
            dithered_pixel(luma, width, noise, x, y)
        } else {
            unwritten()
        }
}

/// The canvas of a `width` by `height` picture scaled by `scale` fits: each
/// side in `u32`, the samples of a row and of the whole canvas in `usize`.
pub open spec fn canvas_fits(width: int, height: int, scale: int) -> bool {
    &&& width * scale <= u32::MAX
    &&& height * scale <= u32::MAX
    &&& 4 * (width * scale) <= usize::MAX
    &&& 4 * (width * scale) * (height * scale) <= usize::MAX
}

/// The samples of pixels `(x, y)` and `(x2, y2)` of a `cw` by `ch` canvas do
/// not overlap, and both lie inside the canvas.
proof fn lemma_pixels_apart(cw: int, ch: int, x: int, y: int, x2: int, y2: int)
    requires
        0 <= x < cw,
        0 <= y < ch,
        0 <= x2 < cw,
        0 <= y2 < ch,
        x != x2 || y != y2,
    ensures
        rgba_offset(cw, x, y) + 4 <= rgba_offset(cw, x2, y2) || rgba_offset(cw, x2, y2) + 4 <= rgba_offset(
            cw,
            x,
            y,
        ),
{
    if y < y2 {
        assert(y * cw + cw <= y2 * cw) by (nonlinear_arith)
            requires
                y < y2,
                0 <= cw,
        ;
    } else if y2 < y {
        assert(y2 * cw + cw <= y * cw) by (nonlinear_arith)
            requires
                y2 < y,
                0 <= cw,
        ;
    }
}

/// Pixel `(x, y)` of a `cw` by `ch` canvas lies within its samples.
proof fn lemma_pixel_inside(cw: int, ch: int, x: int, y: int)
    requires
        0 <= x < cw,
        0 <= y < ch,
    ensures
        0 <= rgba_offset(cw, x, y),
        rgba_offset(cw, x, y) + 4 <= 4 * cw * ch,
{
    lemma_row_major_index(x, y, cw, ch);
    assert(4 * (cw * ch) == 4 * cw * ch) by (nonlinear_arith);
}

/// Dithers a `width` by `height` luminance raster against the tiled noise
/// mask, onto a blank canvas `scale` times as wide and as high. Only the
/// picture's own region of the canvas is written.
pub fn dither_luma(luma: &Vec<u8>, width: u32, height: u32, scale: u32, noise: &NoiseMask) -> (r: RgbaCanvas)
    requires
        luma@.len() == width * height,
        scale > 0,
        canvas_fits(width as int, height as int, scale as int),
    ensures
        is_dithering(r, luma@, width as int, height as int, scale as int, *noise),
{
    let cw = width * scale;
    let ch = height * scale;
    assert(width <= cw && height <= ch) by (nonlinear_arith)
        requires
            cw == width * scale,
            ch == height * scale,
            scale > 0,
    ;
    let mut canvas = RgbaCanvas::blank(cw, ch);
    assert forall|x2: int, y2: int| 0 <= x2 < cw && 0 <= y2 < ch implies #[trigger] canvas_pixel(
        canvas,
        x2,
        y2,
    ) == unwritten() by {
        lemma_pixel_inside(cw as int, ch as int, x2, y2);
        assert(canvas_pixel(canvas, x2, y2) =~= unwritten());
    }
    let luma_len = luma.len();
    let noise_width = noise.width();
    let noise_height = noise.height();
    let mut x: u32 = 0;
    while x < width
        invariant
            x <= width <= cw,
            height <= ch,
            luma@.len() == width * height,
            noise_width == noise.spec_width() > 0,
            noise_height == noise.spec_height() > 0,
            luma_len == luma@.len(),
            canvas_dimensions(canvas) == (cw, ch),
            canvas_samples(canvas).len() == 4 * cw * ch,
            forall|x2: int, y2: int|
                0 <= x2 < cw && 0 <= y2 < ch ==> #[trigger] canvas_pixel(canvas, x2, y2) == if x2 < x
                    && y2 < height {
                    dithered_pixel(luma@, width as int, *noise, x2, y2)
                } else {
                    unwritten()
                },
        decreases width - x,
    {
        let mut y: u32 = 0;
        while y < height
            invariant
                x < width <= cw,
                y <= height <= ch,
                luma@.len() == width * height,
                noise_width == noise.spec_width() > 0,
                noise_height == noise.spec_height() > 0,
                luma_len == luma@.len(),
                canvas_dimensions(canvas) == (cw, ch),
                canvas_samples(canvas).len() == 4 * cw * ch,
                forall|x2: int, y2: int|
                    0 <= x2 < cw && 0 <= y2 < ch ==> #[trigger] canvas_pixel(canvas, x2, y2) == if (x2
                        < x && y2 < height) || (x2 == x && y2 < y) {
                        dithered_pixel(luma@, width as int, *noise, x2, y2)
                    } else {
                        unwritten()
                    },
            decreases height - y,
        {
            let wrap_x = wrap(noise_width, x);
            let wrap_y = wrap(noise_height, y);
            let noise_luma = noise.threshold_at(wrap_x, wrap_y);
            proof {
                lemma_row_major_index(x as int, y as int, width as int, height as int);
            }
            let row_start: usize = (y as usize) * (width as usize);
            let picture_luma = luma[row_start + x as usize];
            let px = if is_bright(noise_luma, picture_luma) {
                WHITE
            } else {
                BLACK
            };
            assert(px@ =~= dithered_pixel(luma@, width as int, *noise, x as int, y as int));
            let ghost before = canvas;
            canvas.put_rgba(x, y, px);
            assert forall|x2: int, y2: int| 0 <= x2 < cw && 0 <= y2 < ch implies #[trigger] canvas_pixel(
                canvas,
                x2,
                y2,
            ) == if x2 == x && y2 == y {
                px@
            } else {
                canvas_pixel(before, x2, y2)
            } by {
                lemma_pixel_inside(cw as int, ch as int, x2, y2);
                if x2 == x && y2 == y {
                    assert(canvas_pixel(canvas, x2, y2) =~= px@);
                } else {
                    lemma_pixels_apart(cw as int, ch as int, x as int, y as int, x2, y2);
                    assert(canvas_pixel(canvas, x2, y2) =~= canvas_pixel(before, x2, y2));
                }
            }
            y = y + 1;
        }
        x = x + 1;
    }
    canvas
}

/// The luminance raster of an RGB buffer (three bytes per pixel), by the
/// sRGB weighting of the image crate.
pub open spec fn luma_of_rgb(rgb: Seq<u8>) -> Seq<u8> {
    Seq::new(rgb.len() / 3, |i: int| srgb_luma(rgb[3 * i], rgb[3 * i + 1], rgb[3 * i + 2]) as u8)
}

/// Dithers an RGB picture, `input_width` by `input_height` pixels with three
/// bytes per pixel row after row, against the tiled noise mask: its
/// luminance decides each pixel of a canvas `scale_factor` times as wide and
/// as high, in the picture's own region only.
pub fn dither_image(
    input_buffer: Vec<u8>,
    input_width: u32,
    input_height: u32,
    scale_factor: u32,
    noise: &NoiseMask,
) -> (r: RgbaCanvas)
    requires
        input_buffer@.len() == 3 * input_width * input_height,
        scale_factor > 0,
        canvas_fits(input_width as int, input_height as int, scale_factor as int),
    ensures
        is_dithering(
            r,
            luma_of_rgb(input_buffer@),
            input_width as int,
            input_height as int,
            scale_factor as int,
            *noise,
        ),
{
    let ghost rgb = input_buffer@;
    assert(3 * input_width * input_height == 3 * (input_width * input_height)) by (nonlinear_arith);
    assert(3 * input_width <= 4 * (input_width * scale_factor)) by (nonlinear_arith)
        requires
            scale_factor > 0,
    ;
    let luma = grayscale_rgb8(input_buffer, input_width, input_height);
    assert(luma@ =~= luma_of_rgb(rgb));
    dither_luma(&luma, input_width, input_height, scale_factor, noise)
}

/// Checks a dithering request and carries it out: a buffer whose length is
/// not three bytes per pixel, a zero scale, or a canvas too large to hold
/// are refused, in that order, and nothing is computed for them.
pub fn try_dither_image(
    input_buffer: Vec<u8>,
    input_width: u32,
    input_height: u32,
    scale_factor: u32,
    noise: &NoiseMask,
) -> (r: Result<RgbaCanvas, DitherError>)
    ensures
        input_buffer@.len() != 3 * input_width * input_height ==> r == Err::<RgbaCanvas, DitherError>(
            DitherError::BufferSizeMismatch,
        ),
        input_buffer@.len() == 3 * input_width * input_height && scale_factor == 0 ==> r == Err::<
            RgbaCanvas,
            DitherError,
        >(DitherError::ZeroScale),
        input_buffer@.len() == 3 * input_width * input_height && scale_factor > 0 && !canvas_fits(
            input_width as int,
            input_height as int,
            scale_factor as int,
        ) ==> r == Err::<RgbaCanvas, DitherError>(DitherError::CanvasTooLarge),
        r is Ok <==> (input_buffer@.len() == 3 * input_width * input_height && scale_factor > 0
            && canvas_fits(input_width as int, input_height as int, scale_factor as int)),
        r matches Ok(c) ==> is_dithering(
            c,
            luma_of_rgb(input_buffer@),
            input_width as int,
            input_height as int,
            scale_factor as int,
            *noise,
        ),
{
    assert(3 * (input_width as u128) * (input_height as u128) <= 3 * 0xffff_ffffu128 * 0xffff_ffffu128)
        by (nonlinear_arith)
        requires
            input_width <= 0xffff_ffffu128,
            input_height <= 0xffff_ffffu128,
    ;
    let expected: u128 = 3 * (input_width as u128) * (input_height as u128);
    if input_buffer.len() as u128 != expected {
        return Err(DitherError::BufferSizeMismatch);
    }
    if scale_factor == 0 {
        return Err(DitherError::ZeroScale);
    }
    assert(input_width as u64 * scale_factor as u64 <= 0xffff_ffffu64 * 0xffff_ffffu64 && input_height as u64
        * scale_factor as u64 <= 0xffff_ffffu64 * 0xffff_ffffu64) by (nonlinear_arith)
        requires
            input_width <= 0xffff_ffffu64,
            input_height <= 0xffff_ffffu64,
            scale_factor <= 0xffff_ffffu64,
    ;
    let cw: u64 = input_width as u64 * scale_factor as u64;
    let ch: u64 = input_height as u64 * scale_factor as u64;
    if cw > u32::MAX as u64 || ch > u32::MAX as u64 {
        return Err(DitherError::CanvasTooLarge);
    }
    assert(4 * (cw as u128) * (ch as u128) <= 4 * 0xffff_ffffu128 * 0xffff_ffffu128) by (nonlinear_arith)
        requires
            cw <= 0xffff_ffffu128,
            ch <= 0xffff_ffffu128,
    ;
    let samples: u128 = 4 * (cw as u128) * (ch as u128);
    if 4 * (cw as u128) > usize::MAX as u128 || samples > usize::MAX as u128 {
        return Err(DitherError::CanvasTooLarge);
    }
    Ok(dither_image(input_buffer, input_width, input_height, scale_factor, noise))
}

/// Inside the picture's region every pixel of a dithering is opaque white or
/// opaque black: no other colour and no other alpha occurs.
pub proof fn lemma_region_is_two_tone(
    c: RgbaCanvas,
    luma: Seq<u8>,
    width: int,
    height: int,
    scale: int,
    noise: NoiseMask,
    x: int,
    y: int,
)
    requires
        is_dithering(c, luma, width, height, scale, noise),
        scale > 0,
        0 <= x < width,
        0 <= y < height,
    ensures
        canvas_pixel(c, x, y) == seq![255u8, 255u8, 255u8, 255u8] || canvas_pixel(c, x, y) == seq![
            0u8,
            0u8,
            0u8,
            255u8,
        ],
{
    assert(x < width * scale && y < height * scale) by (nonlinear_arith)
        requires
            0 <= x < width,
            0 <= y < height,
            scale > 0,
    ;
    assert(canvas_pixel(c, x, y) == dithered_pixel(luma, width, noise, x, y));
}

/// A dithering is determined by its inputs: two canvases that both dither
/// the same raster with the same scale and mask have the same size and the
/// same samples, byte for byte.
pub proof fn lemma_dithering_is_unique(
    c1: RgbaCanvas,
    c2: RgbaCanvas,
    luma: Seq<u8>,
    width: int,
    height: int,
    scale: int,
    noise: NoiseMask,
)
    requires
        is_dithering(c1, luma, width, height, scale, noise),
        is_dithering(c2, luma, width, height, scale, noise),
    ensures
        canvas_dimensions(c1) == canvas_dimensions(c2),
        canvas_samples(c1) == canvas_samples(c2),
{
    let cw = width * scale;
    let ch = height * scale;
    assert forall|i: int| 0 <= i < canvas_samples(c1).len() implies canvas_samples(c1)[i] == canvas_samples(
        c2,
    )[i] by {
        let k = i / 4;
        assert(cw == canvas_dimensions(c1).0 && ch == canvas_dimensions(c1).1);
        assert(0 <= k && 4 * k <= i < 4 * k + 4);
        assert(cw > 0 && k < cw * ch) by (nonlinear_arith)
            requires
                0 <= i < 4 * cw * ch,
                0 <= cw,
                0 <= ch,
                4 * k <= i,
                0 <= k,
        ;
        lemma_fundamental_div_mod(k, cw);
        let x = k % cw;
        let y = k / cw;
        assert(0 <= y < ch) by (nonlinear_arith)
            requires
                k == cw * y + x,
                0 <= x < cw,
                0 <= k < cw * ch,
        ;
        assert(rgba_offset(cw, x, y) == 4 * k) by (nonlinear_arith)
            requires
                k == cw * y + x,
        ;
        lemma_pixel_inside(cw, ch, x, y);
        assert(canvas_pixel(c1, x, y) == canvas_pixel(c2, x, y));
        assert(canvas_pixel(c1, x, y)[i - 4 * k] == canvas_samples(c1)[i]);
        assert(canvas_pixel(c2, x, y)[i - 4 * k] == canvas_samples(c2)[i]);
    }
    assert(canvas_samples(c1) =~= canvas_samples(c2));
}

/// An exact tie between a picture luminance and its tiled threshold dithers
/// to black.
pub proof fn lemma_tie_is_black(
    c: RgbaCanvas,
    luma: Seq<u8>,
    width: int,
    height: int,
    scale: int,
    noise: NoiseMask,
    x: int,
    y: int,
)
    requires
        is_dithering(c, luma, width, height, scale, noise),
        scale > 0,
        0 <= x < width,
        0 <= y < height,
        luma[y * width + x] == tiled_threshold(noise, x, y),
    ensures
        canvas_pixel(c, x, y) == seq![0u8, 0u8, 0u8, 255u8],
{
    lemma_region_is_two_tone(c, luma, width, height, scale, noise, x, y);
    assert(x < width * scale && y < height * scale) by (nonlinear_arith)
        requires
            0 <= x < width,
            0 <= y < height,
            scale > 0,
    ;
}

/// The mask tiles the picture: picture pixel `(x, y)` is compared with mask
/// pixel `(x mod mask width, y mod mask height)`, so two picture pixels a
/// whole number of mask widths and heights apart, with equal luminance,
/// dither alike.
pub proof fn lemma_mask_tiles(
    c: RgbaCanvas,
    luma: Seq<u8>,
    width: int,
    height: int,
    scale: int,
    noise: NoiseMask,
    x: int,
    y: int,
    i: int,
    j: int,
)
    requires
        is_dithering(c, luma, width, height, scale, noise),
        scale > 0,
        0 <= x < width,
        0 <= y < height,
        0 <= i,
        0 <= j,
        x + i * noise.spec_width() < width,
        y + j * noise.spec_height() < height,
        noise.spec_width() > 0,
        noise.spec_height() > 0,
        luma.len() == width * height,
        luma[y * width + x] == luma[(y + j * noise.spec_height()) * width + x + i * noise.spec_width()],
    ensures
        canvas_pixel(c, x, y) == tone(
            luma[y * width + x] > noise.threshold(
                x % (noise.spec_width() as int),
                y % (noise.spec_height() as int),
            ),
        ),
        canvas_pixel(c, x, y) == canvas_pixel(
            c,
            x + i * noise.spec_width(),
            y + j * noise.spec_height(),
        ),
{
    let nw = noise.spec_width() as int;
    let nh = noise.spec_height() as int;
    let x2 = x + i * nw;
    let y2 = y + j * nh;
    assert(0 <= x2 && 0 <= y2) by (nonlinear_arith)
        requires
            x2 == x + i * nw,
            y2 == y + j * nh,
            0 <= x,
            0 <= y,
            0 <= i,
            0 <= j,
            nw > 0,
            nh > 0,
    ;
    assert(x2 < width * scale && y2 < height * scale) by (nonlinear_arith)
        requires
            0 <= x2 < width,
            0 <= y2 < height,
            scale > 0,
    ;
    assert(x < width * scale && y < height * scale) by (nonlinear_arith)
        requires
            0 <= x < width,
            0 <= y < height,
            scale > 0,
    ;
    vstd::arithmetic::div_mod::lemma_mod_multiples_vanish(i, x, nw);
    vstd::arithmetic::div_mod::lemma_mod_multiples_vanish(j, y, nh);
    assert(x2 % nw == x % nw) by {
        assert(x2 == nw * i + x) by (nonlinear_arith)
            requires
                x2 == x + i * nw,
        ;
    }
    assert(y2 % nh == y % nh) by {
        assert(y2 == nh * j + y) by (nonlinear_arith)
            requires
                y2 == y + j * nh,
        ;
    }
}

/// The scale factor changes the canvas size only: dithering the same raster
/// against the same mask at two scales gives the same pixel at every
/// coordinate of the picture's region.
pub proof fn lemma_scale_keeps_region(
    c1: RgbaCanvas,
    c2: RgbaCanvas,
    luma: Seq<u8>,
    width: int,
    height: int,
    scale1: int,
    scale2: int,
    noise: NoiseMask,
    x: int,
    y: int,
)
    requires
        is_dithering(c1, luma, width, height, scale1, noise),
        is_dithering(c2, luma, width, height, scale2, noise),
        scale1 > 0,
        scale2 > 0,
        0 <= x < width,
        0 <= y < height,
    ensures
        canvas_pixel(c1, x, y) == canvas_pixel(c2, x, y),
{
    assert(x < width * scale1 && y < height * scale1) by (nonlinear_arith)
        requires
            0 <= x < width,
            0 <= y < height,
            scale1 > 0,
    ;
    assert(x < width * scale2 && y < height * scale2) by (nonlinear_arith)
        requires
            0 <= x < width,
            0 <= y < height,
            scale2 > 0,
    ;
}

} // verus!

use piston_doom::dither::{dither_image, dither_luma, is_bright, try_dither_image, wrap, BLACK, WHITE};
use piston_doom::error::DitherError;
use piston_doom::noise::NoiseMask;

fn flat_noise(width: u32, height: u32, value: u8) -> NoiseMask {
    NoiseMask::new(width, height, vec![value; (width * height) as usize]).unwrap()
}

fn gray_pixels(values: &[u8]) -> Vec<u8> {
    values.iter().flat_map(|v| [*v, *v, *v]).collect()
}

fn pixel(samples: &[u8], canvas_width: u32, x: u32, y: u32) -> [u8; 4] {
    let o = 4 * (y * canvas_width + x) as usize;
    [samples[o], samples[o + 1], samples[o + 2], samples[o + 3]]
}

#[test]
fn two_by_two_against_flat_mask() {
    let noise = flat_noise(2, 2, 100);
    let pixels = vec![10, 10, 10, 250, 250, 250, 10, 10, 10, 250, 250, 250];
    let (w, h, samples) = dither_image(pixels, 2, 2, 1, &noise).into_parts();
    assert_eq!((w, h), (2, 2));
    assert_eq!(pixel(&samples, w, 0, 0), BLACK);
    assert_eq!(pixel(&samples, w, 1, 0), WHITE);
    assert_eq!(pixel(&samples, w, 0, 1), BLACK);
    assert_eq!(pixel(&samples, w, 1, 1), WHITE);
}

#[test]
fn region_holds_only_white_and_black() {
    let noise = NoiseMask::new(3, 2, vec![0, 40, 80, 120, 160, 255]).unwrap();
    let values: Vec<u8> = (0..20u32).map(|i| (i * 13 % 256) as u8).collect();
    let (w, _, samples) = dither_image(gray_pixels(&values), 5, 4, 1, &noise).into_parts();
    for y in 0..4 {
        for x in 0..5 {
            let p = pixel(&samples, w, x, y);
            assert!(p == WHITE || p == BLACK);
        }
    }
}

#[test]
fn equal_luminance_and_threshold_is_black() {
    let noise = flat_noise(1, 1, 100);
    let (w, _, samples) = dither_image(gray_pixels(&[100, 101, 99]), 3, 1, 1, &noise).into_parts();
    assert_eq!(pixel(&samples, w, 0, 0), BLACK);
    assert_eq!(pixel(&samples, w, 1, 0), WHITE);
    assert_eq!(pixel(&samples, w, 2, 0), BLACK);
}

#[test]
fn threshold_rule_is_strict() {
    assert!(!is_bright(100, 100));
    assert!(is_bright(100, 101));
    assert!(!is_bright(100, 99));
    assert!(is_bright(0, 255));
    assert!(!is_bright(255, 255));
}

#[test]
fn wrap_is_remainder() {
    assert_eq!(wrap(4, 9), 1);
    assert_eq!(wrap(4, 3), 3);
    assert_eq!(wrap(4, 4), 0);
    assert_eq!(wrap(1, 12345), 0);
}

#[test]
fn mask_tiles_across_a_larger_picture() {
    // Thresholds 10 on the diagonal, 200 off it; every picture pixel is 100.
    let noise = NoiseMask::new(2, 2, vec![10, 200, 200, 10]).unwrap();
    let (w, h, samples) = dither_image(gray_pixels(&[100; 15]), 5, 3, 1, &noise).into_parts();
    assert_eq!((w, h), (5, 3));
    for y in 0..3 {
        for x in 0..5 {
            let expected = if (x % 2) == (y % 2) { WHITE } else { BLACK };
            assert_eq!(pixel(&samples, w, x, y), expected, "pixel ({}, {})", x, y);
        }
    }
    // Wrap-around columns and rows read the mask's first column and row again.
    assert_eq!(pixel(&samples, w, 4, 0), WHITE);
    assert_eq!(pixel(&samples, w, 4, 2), WHITE);
    assert_eq!(pixel(&samples, w, 3, 2), BLACK);
}

#[test]
fn scale_changes_canvas_size_only() {
    let noise = NoiseMask::new(2, 1, vec![50, 150]).unwrap();
    let values = [0, 100, 200, 100, 60, 160];
    let (w1, h1, s1) = dither_image(gray_pixels(&values), 3, 2, 1, &noise).into_parts();
    let (w2, h2, s2) = dither_image(gray_pixels(&values), 3, 2, 2, &noise).into_parts();
    assert_eq!((w1, h1), (3, 2));
    assert_eq!((w2, h2), (6, 4));
    assert_eq!(s2.len(), 4 * 6 * 4);
    for y in 0..2 {
        for x in 0..3 {
            assert_eq!(pixel(&s1, w1, x, y), pixel(&s2, w2, x, y));
        }
    }
    for y in 0..4 {
        for x in 0..6 {
            if x >= 3 || y >= 2 {
                assert_eq!(pixel(&s2, w2, x, y), [0, 0, 0, 0]);
            }
        }
    }
}

#[test]
fn repeated_calls_give_identical_bytes() {
    let noise = NoiseMask::new(2, 2, vec![30, 90, 150, 210]).unwrap();
    let pixels: Vec<u8> = (0..48u32).map(|i| (i * 37 % 256) as u8).collect();
    let a = dither_image(pixels.clone(), 4, 4, 2, &noise).into_parts();
    let b = dither_image(pixels, 4, 4, 2, &noise).into_parts();
    assert_eq!(a, b);
}

#[test]
fn colour_is_weighed_by_srgb_luminance() {
    // Pure red has luminance 2126 * 255 / 10000 = 54.
    let red = vec![255, 0, 0];
    let (_, _, above) = dither_image(red.clone(), 1, 1, 1, &flat_noise(1, 1, 53)).into_parts();
    let (_, _, tie) = dither_image(red, 1, 1, 1, &flat_noise(1, 1, 54)).into_parts();
    assert_eq!(pixel(&above, 1, 0, 0), WHITE);
    assert_eq!(pixel(&tie, 1, 0, 0), BLACK);
    // Pure green: 7152 * 255 / 10000 = 182.
    let green = vec![0, 255, 0];
    let (_, _, g_above) = dither_image(green.clone(), 1, 1, 1, &flat_noise(1, 1, 181)).into_parts();
    let (_, _, g_tie) = dither_image(green, 1, 1, 1, &flat_noise(1, 1, 182)).into_parts();
    assert_eq!(pixel(&g_above, 1, 0, 0), WHITE);
    assert_eq!(pixel(&g_tie, 1, 0, 0), BLACK);
}

#[test]
fn luminance_raster_dithers_directly() {
    let noise = NoiseMask::new(2, 1, vec![100, 200]).unwrap();
    let (w, h, samples) = dither_luma(&vec![150, 150, 250], 3, 1, 1, &noise).into_parts();
    assert_eq!((w, h), (3, 1));
    assert_eq!(pixel(&samples, w, 0, 0), WHITE);
    assert_eq!(pixel(&samples, w, 1, 0), BLACK);
    assert_eq!(pixel(&samples, w, 2, 0), WHITE);
}

#[test]
fn buffer_of_wrong_length_is_refused() {
    let noise = flat_noise(2, 2, 100);
    let short = try_dither_image(vec![0; 11], 2, 2, 1, &noise);
    assert_eq!(short.err(), Some(DitherError::BufferSizeMismatch));
    let long = try_dither_image(vec![0; 13], 2, 2, 1, &noise);
    assert_eq!(long.err(), Some(DitherError::BufferSizeMismatch));
}

#[test]
fn zero_scale_is_refused() {
    let noise = flat_noise(1, 1, 100);
    let r = try_dither_image(vec![0; 3], 1, 1, 0, &noise);
    assert_eq!(r.err(), Some(DitherError::ZeroScale));
}

#[test]
fn oversized_canvas_is_refused() {
    let noise = flat_noise(1, 1, 100);
    let r = try_dither_image(Vec::new(), 70_000, 0, 70_000, &noise);
    assert_eq!(r.err(), Some(DitherError::CanvasTooLarge));
}

#[test]
fn checked_dithering_matches_unchecked() {
    let noise = flat_noise(2, 2, 100);
    let pixels = vec![10, 10, 10, 250, 250, 250, 10, 10, 10, 250, 250, 250];
    let checked = try_dither_image(pixels.clone(), 2, 2, 3, &noise).ok().unwrap().into_parts();
    let direct = dither_image(pixels, 2, 2, 3, &noise).into_parts();
    assert_eq!(checked, direct);
    assert_eq!((checked.0, checked.1), (6, 6));
}

#[test]
fn empty_picture_gives_empty_canvas() {
    let noise = flat_noise(1, 1, 100);
    let (w, h, samples) = dither_image(Vec::new(), 0, 0, 4, &noise).into_parts();
    assert_eq!((w, h), (0, 0));
    assert!(samples.is_empty());
}

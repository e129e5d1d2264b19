use image::ImageEncoder;
use piston_doom::error::DitherError;
use piston_doom::noise::NoiseMask;

#[test]
fn mask_keeps_its_shape_and_values() {
    let noise = NoiseMask::new(3, 2, vec![1, 2, 3, 4, 5, 6]).unwrap();
    assert_eq!(noise.width(), 3);
    assert_eq!(noise.height(), 2);
    assert_eq!(noise.threshold_at(0, 0), 1);
    assert_eq!(noise.threshold_at(2, 0), 3);
    assert_eq!(noise.threshold_at(0, 1), 4);
    assert_eq!(noise.threshold_at(2, 1), 6);
}

#[test]
fn empty_mask_is_refused() {
    assert_eq!(NoiseMask::new(0, 2, Vec::new()).err(), Some(DitherError::EmptyNoiseMask));
    assert_eq!(NoiseMask::new(2, 0, Vec::new()).err(), Some(DitherError::EmptyNoiseMask));
}

#[test]
fn mask_with_wrong_length_is_refused() {
    assert_eq!(NoiseMask::new(2, 2, vec![0; 3]).err(), Some(DitherError::NoiseSizeMismatch));
    assert_eq!(NoiseMask::new(2, 2, vec![0; 5]).err(), Some(DitherError::NoiseSizeMismatch));
}

#[test]
fn undecodable_mask_is_refused() {
    let r = NoiseMask::from_encoded(&[1, 2, 3, 4, 5]);
    assert_eq!(r.err(), Some(DitherError::NoiseUndecodable));
}

#[test]
fn png_mask_decodes_to_its_luminance() {
    let luma: Vec<u8> = vec![0, 64, 128, 192, 255, 7];
    let mut png: Vec<u8> = Vec::new();
    image::codecs::png::PngEncoder::new(&mut png)
        .write_image(&luma, 3, 2, image::ExtendedColorType::L8)
        .unwrap();
    let noise = NoiseMask::from_encoded(&png).unwrap();
    assert_eq!((noise.width(), noise.height()), (3, 2));
    assert_eq!(noise.threshold_at(1, 0), 64);
    assert_eq!(noise.threshold_at(0, 1), 192);
    assert_eq!(noise.threshold_at(2, 1), 7);
}

#[test]
fn colour_png_mask_is_taken_in_grayscale() {
    let rgb: Vec<u8> = vec![255, 0, 0, 0, 0, 255];
    let mut png: Vec<u8> = Vec::new();
    image::codecs::png::PngEncoder::new(&mut png)
        .write_image(&rgb, 2, 1, image::ExtendedColorType::Rgb8)
        .unwrap();
    let noise = NoiseMask::from_encoded(&png).unwrap();
    assert_eq!((noise.width(), noise.height()), (2, 1));
    assert_eq!(noise.threshold_at(0, 0), 54);
    assert_eq!(noise.threshold_at(1, 0), 18);
}

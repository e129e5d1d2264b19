//! The threshold field of ordered dithering: a grayscale mask that repeats
//! across the picture.

use vstd::prelude::*;
use crate::error::DitherError;
use crate::raster::{decode_gray, lemma_row_major_index};

verus! {

/// A grayscale noise mask, `width` by `height` pixels, one luminance byte per
/// pixel, row after row from the top. It is never empty and never changes
/// once made.
pub struct NoiseMask {
    width: u32,
    height: u32,
    luma: Vec<u8>,
}

impl NoiseMask {
    #[verifier::type_invariant]
    spec fn well_formed(self) -> bool {
        &&& self.width > 0
        &&& self.height > 0
        &&& self.luma@.len() == self.width * self.height
    }

    /// The mask's width in pixels.
    pub closed spec fn spec_width(self) -> nat {
        self.width as nat
    }

    /// The mask's height in pixels.
    pub closed spec fn spec_height(self) -> nat {
        self.height as nat
    }

    /// The mask's luminance bytes, row after row.
    pub closed spec fn spec_luma(self) -> Seq<u8> {
        self.luma@
    }

    /// The threshold at mask pixel `(x, y)`.
    pub open spec fn threshold(self, x: int, y: int) -> u8 {
        self.spec_luma()[y * self.spec_width() + x]
    }

    /// Makes a mask from its size and its luminance bytes, row after row.
    pub fn new(width: u32, height: u32, luma: Vec<u8>) -> (r: Result<NoiseMask, DitherError>)
        ensures
            (width == 0 || height == 0) ==> r == Err::<NoiseMask, DitherError>(DitherError::EmptyNoiseMask),
            (width > 0 && height > 0 && luma@.len() != width * height) ==> r == Err::<NoiseMask, DitherError>(
                DitherError::NoiseSizeMismatch,
            ),
            r is Ok <==> (width > 0 && height > 0 && luma@.len() == width * height),
            r matches Ok(m) ==> m.spec_width() == width && m.spec_height() == height && m.spec_luma() == luma@,
    {
        if width == 0 || height == 0 {
            return Err(DitherError::EmptyNoiseMask);
        }
        assert(width as u64 * height as u64 <= u64::MAX) by (nonlinear_arith)
            requires
                width <= u32::MAX,
                height <= u32::MAX,
        ;
        if luma.len() as u64 != width as u64 * height as u64 {
            return Err(DitherError::NoiseSizeMismatch);
        }
        Ok(NoiseMask { width, height, luma })
    }

    /// Decodes an encoded picture (PNG) and takes its grayscale as the mask.
    /// A picture that does not decode is refused as undecodable, one without
    /// pixels as empty; the decoded size and bytes go to `NoiseMask::new`.
    pub fn from_encoded(bytes: &[u8]) -> (r: Result<NoiseMask, DitherError>)
        ensures
            r matches Ok(m) ==> m.spec_width() > 0 && m.spec_height() > 0 && m.spec_luma().len()
                == m.spec_width() * m.spec_height(),
            r matches Err(e) ==> e == DitherError::NoiseUndecodable || e == DitherError::EmptyNoiseMask,
    {
        match decode_gray(bytes) {
            Ok((width, height, luma)) => NoiseMask::new(width, height, luma),
            Err(_) => Err(DitherError::NoiseUndecodable),
        }
    }

    /// The mask's width in pixels, never zero.
    pub fn width(&self) -> (r: u32)
        ensures
            r == self.spec_width(),
            r > 0,
    {
        proof {
            use_type_invariant(self);
        }
        self.width
    }

    /// The mask's height in pixels, never zero.
    pub fn height(&self) -> (r: u32)
        ensures
            r == self.spec_height(),
            r > 0,
    {
        proof {
            use_type_invariant(self);
        }
        self.height
    }

    /// The threshold at mask pixel `(x, y)`.
    pub fn threshold_at(&self, x: u32, y: u32) -> (r: u8)
        requires
            x < self.spec_width(),
            y < self.spec_height(),
        ensures
            r == self.threshold(x as int, y as int),
    {
        let len = self.luma.len();
        proof {
            use_type_invariant(self);
            lemma_row_major_index(x as int, y as int, self.width as int, self.height as int);
            assert(y * self.width + x < len);
        }
        let row_start: usize = (y as usize) * (self.width as usize);
        self.luma[row_start + x as usize]
    }
}

} // verus!

use vstd::prelude::*;

verus! {

/// Why a dithering input was refused.
#[derive(Clone, Copy, Debug, PartialEq, Eq, Structural)]
pub enum DitherError {
    /// The pixel buffer does not hold exactly three bytes per pixel.
    BufferSizeMismatch,
    /// The scale factor is zero.
    ZeroScale,
    /// The scaled canvas does not fit: a side exceeds `u32`, or the sample
    /// count exceeds `usize`.
    CanvasTooLarge,
    /// A noise mask with no pixels.
    EmptyNoiseMask,
    /// The luminance bytes of a noise mask do not match its width and height.
    NoiseSizeMismatch,
    /// The encoded noise picture could not be decoded.
    NoiseUndecodable,
}

} // verus!

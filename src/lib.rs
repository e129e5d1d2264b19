//! Ordered dithering of images against a tiled blue-noise threshold mask,
//! together with the small pieces of logic that connect a game engine's
//! frame and key callbacks to a windowing front end.

pub mod dither;
pub mod error;
pub mod frame;
pub mod input;
pub mod noise;
pub mod raster;

//! Colour and tone adjustments on 8-bit RGBA rasters.
//!
//! Every operator maps a pixel buffer to a fresh buffer of the same size,
//! copies alpha unchanged and keeps every channel within `0..=255`. All
//! arithmetic is exact: parameters are fixed-point integers and the colour
//! conversions work on rational numbers held as numerator and denominator.
//!
//! - [`arith`]: rounding and clamping on integers;
//! - [`color`]: RGB to HSL and back;
//! - [`pixels`]: the RGBA buffer and what it means to map it pixel by pixel;
//! - [`tone`]: exposure, shadows, highlights, tone curves, saturation and
//!   vibrance;
//! - [`imaging`]: brightness and hue rotation, done by the `image` crate;
//! - [`pipeline`]: the fixed order of the stages and when each is skipped;
//! - [`codec`]: decoding, adjusting and re-encoding a whole image file;
//! - [`transform`]: crop, resize and quarter turns of an image file;
//! - [`geometry`]: the checks and names those transforms take;
//! - [`metadata`]: the EXIF summary of an image file.

pub mod arith;
pub mod color;
pub mod pixels;
pub mod tone;
pub mod imaging;
pub mod pipeline;
pub mod geometry;
pub mod metadata;
pub mod codec;
pub mod transform;

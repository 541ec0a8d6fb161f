use crate::arith::clamp;
use crate::pixels::{maps_pixels, PixelBuffer, Rgb};
use crate::tone::brightened_rgb;
use image::imageops;
use image::RgbaImage;
use vstd::prelude::*;

verus! {

/// Relies on `image::imageops::brighten` over an RGBA image: the result has
/// the same dimensions, each colour channel `c` becomes
/// `clamp(c + value, 0, 255)` and alpha is copied. Its pixel iterator fails
/// on an image of width zero and height above one, so the width is positive.
#[verifier::external_body]
fn brighten_rgba(img: &PixelBuffer, value: i32) -> (out: PixelBuffer)
    requires
        img.wf(),
        img.width > 0,
        -255 <= value <= 255,
    ensures
        out.same_size(img),
        out.wf(),
        maps_pixels(img.data@, out.data@, |p: Rgb| brightened_rgb(p, value as int)),
{
    let buf = RgbaImage::from_raw(img.width, img.height, img.data.clone()).unwrap();
    let out = imageops::brighten(&buf, value);
    PixelBuffer { width: img.width, height: img.height, data: out.into_raw() }
}

/// Relies on `image::imageops::huerotate` over an RGBA image: the result has
/// the same dimensions, alpha is copied, and within the call every pixel's
/// new colour is one matrix (built from the angle) applied to its old
/// colour. The matrix comes from `f64::cos` and `f64::sin`, whose precision
/// std leaves open, so which colour map it is is not stated.
#[verifier::external_body]
fn huerotate_rgba(img: &PixelBuffer, degrees: i32) -> (out: PixelBuffer)
    requires
        img.wf(),
    ensures
        out.same_size(img),
        out.wf(),
        exists|f: spec_fn(Rgb) -> Rgb| maps_pixels(img.data@, out.data@, f),
{
    let buf = RgbaImage::from_raw(img.width, img.height, img.data.clone()).unwrap();
    let out = imageops::huerotate(&buf, degrees);
    PixelBuffer { width: img.width, height: img.height, data: out.into_raw() }
}

/// `n / d` rounded to the nearest integer, halves away from zero (`d > 0`).
pub open spec fn round_half_away(n: int, d: int) -> int {
    if n >= 0 {
        (2 * n + d) / (2 * d)
    } else {
        -((2 * -n + d) / (2 * d))
    }
}

/// The brightness offset on the 0..=255 channel scale for a brightness on
/// the -100..=100 scale: `round(brightness * 1.28)`.
pub fn brightness_offset(brightness: i32) -> (r: i64)
    ensures
        r == round_half_away(128 * brightness, 100),
{
    let n: i64 = 128 * brightness as i64;
    if n >= 0 {
        (2 * n + 100) / 200
    } else {
        -((2 * -n + 100) / 200)
    }
}

/// Brightness: every colour channel plus `offset`, limited to `0..=255`.
pub fn apply_brightness(img: &PixelBuffer, offset: i64) -> (out: PixelBuffer)
    requires
        img.wf(),
    ensures
        out.same_size(img),
        out.wf(),
        maps_pixels(img.data@, out.data@, |p: Rgb| brightened_rgb(p, offset as int)),
{
    if img.width == 0 {
        proof {
            assert(img.data@.len() == 0) by (nonlinear_arith)
                requires
                    img.data@.len() == 4 * (img.width as int) * (img.height as int),
                    img.width == 0,
            ;
        }
        return img.duplicate();
    }
    let v: i32 = if offset < -255 {
        -255
    } else if offset > 255 {
        255
    } else {
        offset as i32
    };
    let out = brighten_rgba(img, v);
    proof {
        assert forall|p: Rgb| brightened_rgb(p, v as int) == brightened_rgb(p, offset as int) by {
            assert(clamp(p.0 + v, 0, 255) == clamp(p.0 + offset, 0, 255));
            assert(clamp(p.1 + v, 0, 255) == clamp(p.1 + offset, 0, 255));
            assert(clamp(p.2 + v, 0, 255) == clamp(p.2 + offset, 0, 255));
        }
        crate::pixels::lemma_maps_ext(
            img.data@,
            out.data@,
            |p: Rgb| brightened_rgb(p, v as int),
            |p: Rgb| brightened_rgb(p, offset as int),
        );
    }
    out
}

/// Hue rotation by a whole number of degrees: every pixel goes through one
/// colour map, and alpha is kept.
pub fn apply_hue_rotation(img: &PixelBuffer, degrees: i32) -> (out: PixelBuffer)
    requires
        img.wf(),
    ensures
        out.same_size(img),
        out.wf(),
        exists|f: spec_fn(Rgb) -> Rgb| maps_pixels(img.data@, out.data@, f),
{
    huerotate_rgba(img, degrees)
}

} // verus!

use crate::codec::{decode_image, decoded_rgba, decodes, encode_decoded, CodecError};
use crate::geometry::{crop_fits, crop_fits_spec, ResizeFilter, RotateDirection};
use image::imageops::FilterType;
use image::DynamicImage;
use vstd::prelude::*;
use vstd::string::StringExecFns;

verus! {

pub assume_specification[ DynamicImage::crop_imm ](
    img: &DynamicImage,
    x: u32,
    y: u32,
    width: u32,
    height: u32,
) -> DynamicImage;

pub assume_specification[ DynamicImage::rotate90 ](img: &DynamicImage) -> DynamicImage;

pub assume_specification[ DynamicImage::rotate270 ](img: &DynamicImage) -> DynamicImage;

/// A resize to `width` by `height` allocates buffers of 16-byte pixels (four
/// channels of four-byte samples): one of the new size, and one of the new
/// height and the source width, which is at most `u32::MAX`. Each must stay
/// within `isize::MAX` bytes.
pub open spec fn fits_in_memory(width: u32, height: u32) -> bool {
    &&& 16 * (width as int) * (height as int) <= 0x7fff_ffff_ffff_ffff
    &&& 16 * 0xffff_ffff * (height as int) <= 0x7fff_ffff_ffff_ffff
}

/// Relies on `DynamicImage::resize_exact`: the image resampled to exactly
/// `width` by `height` with the given filter. Its buffers are allocated from
/// pixel counts, which must not overflow (see [`fits_in_memory`]).
#[verifier::external_body]
fn resize_to(img: &DynamicImage, width: u32, height: u32, filter: ResizeFilter) -> (r: DynamicImage)
    requires
        fits_in_memory(width, height),
{
    let filter = match filter {
        ResizeFilter::Nearest => FilterType::Nearest,
        ResizeFilter::Triangle => FilterType::Triangle,
        ResizeFilter::CatmullRom => FilterType::CatmullRom,
        ResizeFilter::Gaussian => FilterType::Gaussian,
        ResizeFilter::Lanczos3 => FilterType::Lanczos3,
    };
    img.resize_exact(width, height, filter)
}

/// Why a geometric transform failed.
#[derive(Debug)]
pub enum TransformError {
    /// Decoding the input or encoding the result failed.
    Codec(CodecError),
    /// The crop rectangle does not lie inside the image.
    CropOutOfBounds { x: u32, y: u32, width: u32, height: u32, image_width: u32, image_height: u32 },
    /// The rotation direction is neither `"left"` nor `"right"`.
    InvalidDirection,
    /// The requested size cannot be allocated.
    TooLarge,
}

fn number(v: u32) -> (r: String) {
    v.to_string()
}

impl TransformError {
    /// A sentence describing the failure; `subject` names what was being
    /// encoded (`"cropped"`, `"resized"`, `"rotated"`).
    pub fn message(&self, subject: &str) -> (r: String)
        ensures
            self is InvalidDirection ==> r@ == "Invalid rotation direction"@,
            self is TooLarge ==> r@ == "Requested size is too large"@,
    {
        match self {
            TransformError::Codec(e) => e.message(subject),
            TransformError::CropOutOfBounds { x, y, width, height, image_width, image_height } => {
                String::from_str("Crop region (").concat(number(*x).as_str()).concat(",").concat(
                    number(*y).as_str(),
                ).concat(" ").concat(number(*width).as_str()).concat("x").concat(
                    number(*height).as_str(),
                ).concat(") exceeds image bounds (").concat(number(*image_width).as_str()).concat(
                    "x",
                ).concat(number(*image_height).as_str()).concat(")")
            },
            TransformError::InvalidDirection => String::from_str("Invalid rotation direction"),
            TransformError::TooLarge => String::from_str("Requested size is too large"),
        }
    }
}

/// Cuts the rectangle at `(x, y)` of `width` by `height` out of an encoded
/// image and encodes it in the input's format. A rectangle that does not lie
/// inside the image is refused with the image's size.
pub fn crop_image(data: &[u8], x: u32, y: u32, width: u32, height: u32) -> (r: Result<
    Vec<u8>,
    TransformError,
>)
    ensures
        r matches Err(e) ==> e is Codec || e is CropOutOfBounds,
        r matches Err(TransformError::CropOutOfBounds { x: ex, y: ey, width: ew, height: eh, image_width, image_height }) ==> ex == x && ey == y && ew == width && eh == height && !crop_fits_spec(x, y, width, height, image_width, image_height),
        !decodes(data@) ==> r matches Err(TransformError::Codec(CodecError::DecodeFailed(_))),
        decodes(data@) ==> ({
            let (iw, ih) = (decoded_rgba(data@).0, decoded_rgba(data@).1);
            &&& !crop_fits_spec(x, y, width, height, iw, ih) ==> r == Err::<Vec<u8>, TransformError>(
                TransformError::CropOutOfBounds { x, y, width, height, image_width: iw, image_height: ih },
            )
            &&& crop_fits_spec(x, y, width, height, iw, ih) ==> (r is Ok || r matches Err(
                TransformError::Codec(CodecError::EncodeFailed(_)),
            ))
        }),
{
    let decoded = match decode_image(data) {
        Ok(d) => d,
        Err(e) => return Err(TransformError::Codec(e)),
    };
    let image_width = decoded.width;
    let image_height = decoded.height;
    if !crop_fits(x, y, width, height, image_width, image_height) {
        return Err(TransformError::CropOutOfBounds { x, y, width, height, image_width, image_height });
    }
    let cropped = decoded.img.crop_imm(x, y, width, height);
    match encode_decoded(&cropped, decoded.format) {
        Ok(bytes) => Ok(bytes),
        Err(e) => Err(TransformError::Codec(e)),
    }
}

/// Resamples an encoded image to exactly `width` by `height` with the filter
/// named by `filter` (see [`ResizeFilter::from_name`]) and encodes it in the
/// input's format.
pub fn resize_image(data: &[u8], width: u32, height: u32, filter: &str) -> (r: Result<
    Vec<u8>,
    TransformError,
>)
    ensures
        r matches Err(e) ==> e is Codec || e is TooLarge,
        r matches Err(TransformError::TooLarge) ==> !fits_in_memory(width, height),
        !decodes(data@) ==> r matches Err(TransformError::Codec(CodecError::DecodeFailed(_))),
        decodes(data@) && !fits_in_memory(width, height) ==> r matches Err(TransformError::TooLarge),
        decodes(data@) && fits_in_memory(width, height) ==> (r is Ok || r matches Err(
            TransformError::Codec(CodecError::EncodeFailed(_)),
        )),
{
    let decoded = match decode_image(data) {
        Ok(d) => d,
        Err(e) => return Err(TransformError::Codec(e)),
    };
    let (w, h) = (width as u128, height as u128);
    proof {
        assert(16 * w * h <= 16 * 0xffff_ffff * 0xffff_ffff && w * h * 16 == 16 * w * h)
            by (nonlinear_arith)
            requires
                w <= 0xffff_ffff,
                h <= 0xffff_ffff,
        ;
    }
    if w * h * 16 > 0x7fff_ffff_ffff_ffff || h * 68_719_476_720 > 0x7fff_ffff_ffff_ffff {
        return Err(TransformError::TooLarge);
    }
    let resized = resize_to(&decoded.img, width, height, ResizeFilter::from_name(filter));
    match encode_decoded(&resized, decoded.format) {
        Ok(bytes) => Ok(bytes),
        Err(e) => Err(TransformError::Codec(e)),
    }
}

/// Turns an encoded image a quarter turn, `"left"` (counter-clockwise) or
/// `"right"` (clockwise), and encodes it in the input's format.
pub fn rotate_image(data: &[u8], direction: &str) -> (r: Result<Vec<u8>, TransformError>)
    ensures
        r matches Err(e) ==> e is Codec || e is InvalidDirection,
        r matches Err(TransformError::InvalidDirection) <==> (r is Err && !(r->Err_0 is Codec)
            && direction@ != "left"@ && direction@ != "right"@),
        direction@ != "left"@ && direction@ != "right"@ ==> r is Err,
        !decodes(data@) ==> r matches Err(TransformError::Codec(CodecError::DecodeFailed(_))),
        decodes(data@) && direction@ != "left"@ && direction@ != "right"@ ==> r matches Err(
            TransformError::InvalidDirection,
        ),
        decodes(data@) && (direction@ == "left"@ || direction@ == "right"@) ==> (r is Ok
            || r matches Err(TransformError::Codec(CodecError::EncodeFailed(_)))),
{
    let decoded = match decode_image(data) {
        Ok(d) => d,
        Err(e) => return Err(TransformError::Codec(e)),
    };
    let rotated = match RotateDirection::parse(direction) {
        Some(RotateDirection::Left) => decoded.img.rotate270(),
        Some(RotateDirection::Right) => decoded.img.rotate90(),
        None => return Err(TransformError::InvalidDirection),
    };
    match encode_decoded(&rotated, decoded.format) {
        Ok(bytes) => Ok(bytes),
        Err(e) => Err(TransformError::Codec(e)),
    }
}

} // verus!

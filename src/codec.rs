use crate::pipeline::{adjust, adjusted_from, Adjustments, ToneTables};
use crate::pixels::PixelBuffer;
use image::{DynamicImage, ImageError, ImageFormat, RgbaImage};
use std::io::Cursor;
use vstd::prelude::*;
use vstd::string::{to_string_from_display_ensures, StringExecFns};

verus! {

#[verifier::external_type_specification]
#[verifier::external_body]
pub struct ExDynamicImage(DynamicImage);

#[verifier::external_type_specification]
#[verifier::external_body]
pub struct ExImageFormat(ImageFormat);

#[verifier::external_type_specification]
#[verifier::external_body]
pub struct ExImageError(ImageError);

/// The container formats this library reads and writes.
#[derive(Clone, Copy, Debug, PartialEq, Eq)]
pub enum ContainerFormat {
    Png,
    Jpeg,
    Gif,
    WebP,
    Tiff,
    Bmp,
}

/// `image` decodes `data`.
pub uninterp spec fn decodes(data: Seq<u8>) -> bool;

/// Width, height and 8-bit RGBA bytes of the image `image` decodes from
/// `data`.
pub uninterp spec fn decoded_rgba(data: Seq<u8>) -> (u32, u32, Seq<u8>);

/// The container format among [`ContainerFormat`] that the leading bytes of
/// `data` announce, if any.
pub uninterp spec fn guessed_format(data: Seq<u8>) -> Option<ContainerFormat>;

/// The bytes `image` writes for a `width` by `height` RGBA image in `format`,
/// or nothing when it cannot write it.
pub uninterp spec fn encoded_rgba(
    width: u32,
    height: u32,
    pixels: Seq<u8>,
    format: ContainerFormat,
) -> Option<Seq<u8>>;

/// The container format an input is written back in: the one its leading
/// bytes announce, PNG when they announce none.
pub open spec fn input_format(data: Seq<u8>) -> ContainerFormat {
    match guessed_format(data) {
        Some(f) => f,
        None => ContainerFormat::Png,
    }
}

/// `data` decodes, to RGBA bytes of four bytes per pixel.
pub open spec fn decodable(data: Seq<u8>) -> bool {
    let (w, h, px) = decoded_rgba(data);
    decodes(data) && px.len() == 4 * (w as int) * (h as int)
}

/// `r` is the outcome of an encoding that gives `e`: the bytes when there
/// are some, an encoding failure otherwise.
pub open spec fn encodes_as(r: Result<Vec<u8>, CodecError>, e: Option<Seq<u8>>) -> bool {
    match e {
        Some(b) => r matches Ok(v) && v@ == b,
        None => r matches Err(CodecError::EncodeFailed(_)),
    }
}

/// Why an image could not be processed.
#[derive(Debug)]
pub enum CodecError {
    /// The input's container format was not recognised or its payload is
    /// malformed; the cause as the decoder describes it.
    DecodeFailed(String),
    /// The result could not be written in the input's container format; the
    /// cause as the encoder describes it.
    EncodeFailed(String),
}

impl CodecError {
    /// A sentence describing the failure; `subject` names what was being
    /// encoded (`"adjusted"`, `"cropped"`, ...).
    pub fn message(&self, subject: &str) -> (r: String)
        ensures
            self matches CodecError::DecodeFailed(c) ==> r@ == "Failed to decode image: "@ + c@,
            self matches CodecError::EncodeFailed(c) ==> r@ == "Failed to encode "@ + subject@
                + " image: "@ + c@,
    {
        match self {
            CodecError::DecodeFailed(c) => String::from_str("Failed to decode image: ").concat(
                c.as_str(),
            ),
            CodecError::EncodeFailed(c) => String::from_str("Failed to encode ").concat(
                subject,
            ).concat(" image: ").concat(c.as_str()),
        }
    }
}

/// A decoded image, its size and the container format it was read from.
pub struct DecodedImage {
    pub img: DynamicImage,
    pub width: u32,
    pub height: u32,
    pub format: ContainerFormat,
}

/// Relies on `image::load_from_memory`: guesses the container format from
/// the leading bytes and decodes the payload, or fails; and on
/// `DynamicImage::width` and `height`, which `to_rgba8` keeps.
#[verifier::external_body]
fn load(data: &[u8]) -> (r: Result<(DynamicImage, u32, u32), ImageError>)
    ensures
        r is Ok <==> decodes(data@),
        r matches Ok(t) ==> t.1 == decoded_rgba(data@).0 && t.2 == decoded_rgba(data@).1,
{
    match image::load_from_memory(data) {
        Ok(img) => {
            let (w, h) = (img.width(), img.height());
            Ok((img, w, h))
        },
        Err(e) => Err(e),
    }
}

/// Relies on `image::load_from_memory` as [`load`] does, and on
/// `DynamicImage::to_rgba8`: the decoded image as 8-bit RGBA.
#[verifier::external_body]
fn load_rgba(data: &[u8]) -> (r: Result<(u32, u32, Vec<u8>), ImageError>)
    ensures
        r is Ok <==> decodes(data@),
        r matches Ok(t) ==> (t.0, t.1, t.2@) == decoded_rgba(data@),
{
    match image::load_from_memory(data) {
        Ok(img) => {
            let rgba = img.to_rgba8();
            let (w, h) = rgba.dimensions();
            Ok((w, h, rgba.into_raw()))
        },
        Err(e) => Err(e),
    }
}

/// Relies on `image::guess_format`: the container format that the leading
/// bytes announce, if any; formats this library does not read count as none.
#[verifier::external_body]
fn guess_format(data: &[u8]) -> (r: Option<ContainerFormat>)
    ensures
        r == guessed_format(data@),
{
    match image::guess_format(data) {
        Ok(ImageFormat::Png) => Some(ContainerFormat::Png),
        Ok(ImageFormat::Jpeg) => Some(ContainerFormat::Jpeg),
        Ok(ImageFormat::Gif) => Some(ContainerFormat::Gif),
        Ok(ImageFormat::WebP) => Some(ContainerFormat::WebP),
        Ok(ImageFormat::Tiff) => Some(ContainerFormat::Tiff),
        Ok(ImageFormat::Bmp) => Some(ContainerFormat::Bmp),
        _ => None,
    }
}

/// Relies on the variants of `image::ImageFormat`, one for each
/// [`ContainerFormat`].
#[verifier::external_body]
fn image_format(format: ContainerFormat) -> (r: ImageFormat) {
    match format {
        ContainerFormat::Png => ImageFormat::Png,
        ContainerFormat::Jpeg => ImageFormat::Jpeg,
        ContainerFormat::Gif => ImageFormat::Gif,
        ContainerFormat::WebP => ImageFormat::WebP,
        ContainerFormat::Tiff => ImageFormat::Tiff,
        ContainerFormat::Bmp => ImageFormat::Bmp,
    }
}

/// Relies on `RgbaImage::from_raw`, which takes a buffer of four bytes per
/// pixel as it stands, and on `DynamicImage::write_to`: the RGBA image
/// serialised in `format`, or the encoder's error.
#[verifier::external_body]
fn write_rgba(buf: &PixelBuffer, format: ContainerFormat) -> (r: Result<Vec<u8>, ImageError>)
    requires
        buf.wf(),
    ensures
        r is Ok <==> encoded_rgba(buf.width, buf.height, buf.data@, format) is Some,
        r matches Ok(b) ==> encoded_rgba(buf.width, buf.height, buf.data@, format) == Some(b@),
{
    let rgba = RgbaImage::from_raw(buf.width, buf.height, buf.data.clone()).unwrap();
    let mut out = Vec::new();
    match DynamicImage::ImageRgba8(rgba).write_to(&mut Cursor::new(&mut out), image_format(format)) {
        Ok(()) => Ok(out),
        Err(e) => Err(e),
    }
}

/// Relies on `DynamicImage::write_to`: the image serialised in `format`, or
/// the encoder's error.
#[verifier::external_body]
fn write_image(img: &DynamicImage, format: ContainerFormat) -> (r: Result<Vec<u8>, ImageError>) {
    let mut out = Vec::new();
    match img.write_to(&mut Cursor::new(&mut out), image_format(format)) {
        Ok(()) => Ok(out),
        Err(e) => Err(e),
    }
}

fn cause(e: &ImageError) -> (r: String)
    ensures
        to_string_from_display_ensures::<ImageError>(e, r),
{
    e.to_string()
}

/// The container format an input is written back in.
fn format_of(data: &[u8]) -> (r: ContainerFormat)
    ensures
        r == input_format(data@),
{
    match guess_format(data) {
        Some(f) => f,
        None => ContainerFormat::Png,
    }
}

/// Decodes an image, keeping its size and container format.
pub fn decode_image(data: &[u8]) -> (r: Result<DecodedImage, CodecError>)
    ensures
        r is Ok <==> decodes(data@),
        r matches Err(e) ==> e is DecodeFailed,
        r matches Ok(d) ==> d.width == decoded_rgba(data@).0 && d.height == decoded_rgba(data@).1
            && d.format == input_format(data@),
{
    match load(data) {
        Ok((img, width, height)) => Ok(DecodedImage { img, width, height, format: format_of(data) }),
        Err(e) => Err(CodecError::DecodeFailed(cause(&e))),
    }
}

/// Encodes an RGBA buffer in `format`: its bytes when the encoder writes
/// them, [`CodecError::EncodeFailed`] when it cannot.
pub fn encode_image(buf: &PixelBuffer, format: ContainerFormat) -> (r: Result<Vec<u8>, CodecError>)
    requires
        buf.wf(),
    ensures
        encodes_as(r, encoded_rgba(buf.width, buf.height, buf.data@, format)),
{
    match write_rgba(buf, format) {
        Ok(bytes) => Ok(bytes),
        Err(e) => Err(CodecError::EncodeFailed(cause(&e))),
    }
}

/// Encodes a decoded image (of any colour type) in `format`. Fails with
/// [`CodecError::EncodeFailed`] and nothing else.
pub fn encode_decoded(img: &DynamicImage, format: ContainerFormat) -> (r: Result<Vec<u8>, CodecError>)
    ensures
        r matches Err(e) ==> e is EncodeFailed,
{
    match write_image(img, format) {
        Ok(bytes) => Ok(bytes),
        Err(e) => Err(CodecError::EncodeFailed(cause(&e))),
    }
}

/// Decodes an encoded image to RGBA, runs [`adjust`] on it and encodes the
/// result in the container format of the input. An input that does not
/// decode gives [`CodecError::DecodeFailed`] before any stage runs; otherwise
/// the result is the encoding of the adjusted pixels, or
/// [`CodecError::EncodeFailed`] when they cannot be encoded.
pub fn adjust_image(data: &[u8], params: &Adjustments, tables: &ToneTables) -> (r: Result<
    Vec<u8>,
    CodecError,
>)
    requires
        tables.wf(),
    ensures
        r matches Err(CodecError::DecodeFailed(_)) <==> !decodable(data@),
        decodable(data@) ==> exists|out: Seq<u8>|
            #[trigger] adjusted_from(*params, *tables, decoded_rgba(data@).2, out) && encodes_as(
                r,
                encoded_rgba(decoded_rgba(data@).0, decoded_rgba(data@).1, out, input_format(data@)),
            ),
{
    let (width, height, bytes) = match load_rgba(data) {
        Ok(t) => t,
        Err(e) => return Err(CodecError::DecodeFailed(cause(&e))),
    };
    let pixels = match PixelBuffer::from_rgba(width, height, bytes) {
        Some(p) => p,
        None => return Err(
            CodecError::DecodeFailed(String::from_str("decoded pixels do not match the image size")),
        ),
    };
    let format = format_of(data);
    let adjusted = adjust(&pixels, params, tables);
    let r = encode_image(&adjusted, format);
    proof {
        assert(adjusted_from(*params, *tables, decoded_rgba(data@).2, adjusted.data@));
    }
    r
}

} // verus!

use image::{DynamicImage, ImageFormat, Rgba, RgbaImage};
use image_adjust::codec::{adjust_image, decode_image, encode_image, CodecError, ContainerFormat};
use image_adjust::pixels::PixelBuffer;
use image_adjust::metadata::{extract_exif_data, trim_quotes};
use image_adjust::pipeline::{Adjustments, ToneTables};
use image_adjust::tone::{GAIN_ONE, UNIT};
use image_adjust::transform::{crop_image, resize_image, rotate_image, TransformError};
use std::io::Cursor;

fn png(width: u32, height: u32) -> Vec<u8> {
    let img = RgbaImage::from_fn(width, height, |x, y| Rgba([(40 * x) as u8 + 100, (30 * y) as u8 + 50, 200, 100 + x as u8]));
    let mut out = Vec::new();
    DynamicImage::ImageRgba8(img).write_to(&mut Cursor::new(&mut out), ImageFormat::Png).unwrap();
    out
}

fn pixels(bytes: &[u8]) -> RgbaImage {
    image::load_from_memory(bytes).unwrap().to_rgba8()
}

fn ramp_tables() -> ToneTables {
    let ramp: Vec<u8> = (0..256u32).map(|c| c as u8).collect();
    ToneTables { exposure_gain: GAIN_ONE, gamma_curve: ramp.clone(), contrast_curve: ramp }
}

#[test]
fn adjust_image_with_neutral_parameters_keeps_pixels() {
    let input = png(3, 2);
    let out = adjust_image(&input, &Adjustments::neutral(), &ramp_tables()).unwrap();
    assert_eq!(image::guess_format(&out).unwrap(), ImageFormat::Png);
    assert_eq!(pixels(&out), pixels(&input));
}

#[test]
fn adjust_image_desaturates_and_keeps_alpha() {
    let input = png(2, 2);
    let mut p = Adjustments::neutral();
    p.saturation = 0;
    let out = pixels(&adjust_image(&input, &p, &ramp_tables()).unwrap());
    for (a, b) in pixels(&input).pixels().zip(out.pixels()) {
        assert_eq!(b[0], b[1]);
        assert_eq!(b[1], b[2]);
        assert_eq!(a[3], b[3]);
    }
    let _ = UNIT;
}

#[test]
fn undecodable_input_is_a_decode_error() {
    let e = adjust_image(b"not an image", &Adjustments::neutral(), &ramp_tables()).unwrap_err();
    assert!(matches!(e, CodecError::DecodeFailed(_)));
    assert!(e.message("adjusted").starts_with("Failed to decode image: "));
    assert!(decode_image(&[]).is_err());
}

#[test]
fn decode_keeps_the_container_format() {
    let d = decode_image(&png(1, 1)).unwrap();
    assert_eq!(d.format, ContainerFormat::Png);
    assert_eq!((d.width, d.height), (1, 1));
    assert_eq!((d.img.width(), d.img.height()), (1, 1));
}

#[test]
fn crop_inside_and_outside() {
    let input = png(4, 4);
    let out = pixels(&crop_image(&input, 1, 1, 2, 2).unwrap());
    assert_eq!(out.dimensions(), (2, 2));
    assert_eq!(out.get_pixel(0, 0), pixels(&input).get_pixel(1, 1));
    let e = crop_image(&input, 3, 3, 2, 2).unwrap_err();
    assert!(matches!(e, TransformError::CropOutOfBounds { image_width: 4, image_height: 4, .. }));
    assert_eq!(e.message("cropped"), "Crop region (3,3 2x2) exceeds image bounds (4x4)");
    assert!(matches!(crop_image(&input, u32::MAX, 0, 2, 1), Err(TransformError::CropOutOfBounds { .. })));
}

#[test]
fn rotate_quarter_turns() {
    let input = png(3, 1);
    let right = pixels(&rotate_image(&input, "right").unwrap());
    assert_eq!(right.dimensions(), (1, 3));
    assert_eq!(right.get_pixel(0, 0), pixels(&input).get_pixel(0, 0));
    let left = pixels(&rotate_image(&input, "left").unwrap());
    assert_eq!(left.get_pixel(0, 0), pixels(&input).get_pixel(2, 0));
    let e = rotate_image(&input, "up").unwrap_err();
    assert!(matches!(e, TransformError::InvalidDirection));
    assert_eq!(e.message("rotated"), "Invalid rotation direction");
    assert!(matches!(rotate_image(b"junk", "up"), Err(TransformError::Codec(_))));
}

#[test]
fn resize_to_exact_size() {
    let input = png(4, 2);
    let out = pixels(&resize_image(&input, 8, 6, "nearest").unwrap());
    assert_eq!(out.dimensions(), (8, 6));
    assert!(matches!(resize_image(&input, u32::MAX, u32::MAX, "gaussian"), Err(TransformError::TooLarge)));
}

#[test]
fn image_without_exif_has_empty_summary() {
    let d = extract_exif_data(&png(2, 2));
    assert_eq!(d.orientation, None);
    assert_eq!(d.camera_make, None);
    assert_eq!(d.iso, None);
    assert_eq!(d.flash, None);
    let d = extract_exif_data(b"junk");
    assert_eq!(d.exposure_program, None);
}

#[test]
fn quotes_are_trimmed_from_both_ends() {
    assert_eq!(trim_quotes("\"Canon\""), "Canon");
    assert_eq!(trim_quotes("\"\"a\"b\"\""), "a\"b");
    assert_eq!(trim_quotes("plain"), "plain");
    assert_eq!(trim_quotes("\"\"\""), "");
    assert_eq!(trim_quotes(""), "");
}

fn tiff_with_exif() -> Vec<u8> {
    let mut b: Vec<u8> = vec![0x49, 0x49, 0x2A, 0x00, 0x08, 0x00, 0x00, 0x00];
    b.extend_from_slice(&[0x03, 0x00]);
    // Make, ASCII, 6 characters at offset 50
    b.extend_from_slice(&[0x0F, 0x01, 0x02, 0x00, 0x06, 0x00, 0x00, 0x00, 50, 0x00, 0x00, 0x00]);
    // Orientation, SHORT, 1 value: 6
    b.extend_from_slice(&[0x12, 0x01, 0x03, 0x00, 0x01, 0x00, 0x00, 0x00, 0x06, 0x00, 0x00, 0x00]);
    // Software, ASCII, 4 characters inline
    b.extend_from_slice(&[0x31, 0x01, 0x02, 0x00, 0x04, 0x00, 0x00, 0x00, b'v', b'1', b'2', 0x00]);
    b.extend_from_slice(&[0x00, 0x00, 0x00, 0x00]);
    assert_eq!(b.len(), 50);
    b.extend_from_slice(b"Canon\0");
    b
}

#[test]
fn exif_fields_are_read_from_a_tiff() {
    let d = extract_exif_data(&tiff_with_exif());
    assert_eq!(d.orientation, Some(6));
    assert_eq!(d.camera_make.as_deref(), Some("Canon"));
    assert_eq!(d.software.as_deref(), Some("v12"));
    assert_eq!(d.camera_model, None);
    assert_eq!(d.flash, None);
}

#[test]
fn encode_image_writes_the_buffer_in_the_format() {
    let buf = PixelBuffer::from_rgba(2, 1, vec![1, 2, 3, 4, 250, 251, 252, 253]).unwrap();
    let bytes = encode_image(&buf, ContainerFormat::Png).unwrap();
    assert_eq!(image::guess_format(&bytes).unwrap(), ImageFormat::Png);
    assert_eq!(pixels(&bytes).into_raw(), buf.data);
    let bmp = encode_image(&buf, ContainerFormat::Bmp).unwrap();
    assert_eq!(image::guess_format(&bmp).unwrap(), ImageFormat::Bmp);
}

#[test]
fn encode_failure_names_the_subject() {
    // JPEG has no alpha channel: the encoder refuses an RGBA buffer
    let buf = PixelBuffer::from_rgba(1, 1, vec![1, 2, 3, 4]).unwrap();
    match encode_image(&buf, ContainerFormat::Jpeg) {
        Err(e) => {
            assert!(matches!(e, CodecError::EncodeFailed(_)));
            assert!(e.message("adjusted").starts_with("Failed to encode adjusted image: "));
        }
        Ok(bytes) => assert!(!bytes.is_empty()),
    }
}

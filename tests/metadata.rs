use image_adjust::geometry::{crop_fits, ResizeFilter, RotateDirection};
use image_adjust::metadata::{decimal_text, format_exposure_program, format_flash, summarize_exif, ExifFields};

#[test]
fn flash_descriptions() {
    assert_eq!(format_flash(0), "Did not fire");
    assert_eq!(format_flash(1), "Fired");
    assert_eq!(format_flash(0x10), "Off");
    assert_eq!(format_flash(0x11), "Off");
    assert_eq!(format_flash(0x19), "Fired");
    assert_eq!(format_flash(0x18), "Did not fire");
}

#[test]
fn exposure_program_names() {
    assert_eq!(format_exposure_program(0), "Not defined");
    assert_eq!(format_exposure_program(3), "Aperture priority");
    assert_eq!(format_exposure_program(8), "Landscape mode");
    assert_eq!(format_exposure_program(9), "Unknown (9)");
    assert_eq!(format_exposure_program(4_000_000_000), "Unknown (4000000000)");
}

#[test]
fn exif_fields_are_put_into_words() {
    let fields = ExifFields {
        orientation: Some(6),
        make: Some("Canon".to_string()),
        model: None,
        date_taken: Some("2020:01:02 03:04:05".to_string()),
        photographic_sensitivity: None,
        iso_speed: Some(400),
        f_number: Some("2.8".to_string()),
        exposure_time: Some("1/250".to_string()),
        focal_length: Some("50".to_string()),
        flash: Some(1),
        lens_model: None,
        software: Some("fw 1.0".to_string()),
        exposure_program: Some(2),
    };
    let d = summarize_exif(fields);
    assert_eq!(d.orientation, Some(6));
    assert_eq!(d.camera_make.as_deref(), Some("Canon"));
    assert_eq!(d.camera_model, None);
    assert_eq!(d.iso, Some(400));
    assert_eq!(d.aperture.as_deref(), Some("f/2.8"));
    assert_eq!(d.shutter_speed.as_deref(), Some("1/250s"));
    assert_eq!(d.focal_length.as_deref(), Some("50 mm"));
    assert_eq!(d.flash.as_deref(), Some("Fired"));
    assert_eq!(d.exposure_program.as_deref(), Some("Normal program"));
    assert_eq!(d.software.as_deref(), Some("fw 1.0"));
}

#[test]
fn iso_prefers_photographic_sensitivity() {
    let fields = ExifFields {
        orientation: None,
        make: None,
        model: None,
        date_taken: None,
        photographic_sensitivity: Some(100),
        iso_speed: Some(400),
        f_number: None,
        exposure_time: None,
        focal_length: None,
        flash: None,
        lens_model: None,
        software: None,
        exposure_program: None,
    };
    let d = summarize_exif(fields);
    assert_eq!(d.iso, Some(100));
    assert_eq!(d.aperture, None);
    assert_eq!(d.flash, None);
    assert_eq!(d.exposure_program, None);
}

#[test]
fn crop_bounds() {
    assert!(crop_fits(0, 0, 10, 10, 10, 10));
    assert!(!crop_fits(1, 0, 10, 10, 10, 10));
    assert!(!crop_fits(0, 1, 10, 10, 10, 10));
    assert!(!crop_fits(u32::MAX, 0, 2, 1, 10, 10));
    assert!(crop_fits(5, 5, 0, 0, 5, 5));
}

#[test]
fn rotate_direction_names() {
    assert_eq!(RotateDirection::parse("left"), Some(RotateDirection::Left));
    assert_eq!(RotateDirection::parse("right"), Some(RotateDirection::Right));
    assert_eq!(RotateDirection::parse("up"), None);
    assert_eq!(RotateDirection::parse("Left"), None);
}

#[test]
fn resize_filter_names() {
    assert_eq!(ResizeFilter::from_name("nearest"), ResizeFilter::Nearest);
    assert_eq!(ResizeFilter::from_name("triangle"), ResizeFilter::Triangle);
    assert_eq!(ResizeFilter::from_name("catmull_rom"), ResizeFilter::CatmullRom);
    assert_eq!(ResizeFilter::from_name("gaussian"), ResizeFilter::Gaussian);
    assert_eq!(ResizeFilter::from_name("lanczos3"), ResizeFilter::Lanczos3);
    assert_eq!(ResizeFilter::from_name(""), ResizeFilter::Lanczos3);
}

#[test]
fn decimal_notation() {
    assert_eq!(decimal_text(0), "0");
    assert_eq!(decimal_text(7), "7");
    assert_eq!(decimal_text(10), "10");
    assert_eq!(decimal_text(1203), "1203");
    assert_eq!(decimal_text(u32::MAX), "4294967295");
}

use image_adjust::imaging::{apply_brightness, apply_hue_rotation, brightness_offset};
use image_adjust::pipeline::{adjust, Adjustments, Stage, ToneTables};
use image_adjust::pixels::PixelBuffer;
use image_adjust::tone::{
    apply_curve, apply_exposure, apply_highlights, apply_saturation, apply_shadows, apply_vibrance,
    GAIN_ONE, UNIT,
};

fn sample() -> PixelBuffer {
    PixelBuffer::from_rgba(
        3,
        2,
        vec![
            100, 150, 200, 255, 0, 0, 0, 0, 255, 255, 255, 7, 10, 200, 30, 128, 250, 20, 90, 1, 64,
            64, 64, 200,
        ],
    )
    .unwrap()
}

fn identity_tables() -> ToneTables {
    let ramp: Vec<u8> = (0..256u32).map(|c| c as u8).collect();
    ToneTables { exposure_gain: GAIN_ONE, gamma_curve: ramp.clone(), contrast_curve: ramp }
}

fn test_tables() -> ToneTables {
    ToneTables {
        exposure_gain: 3 * GAIN_ONE / 2,
        gamma_curve: (0..256u32).map(|c| ((c as f64 / 255.0).sqrt() * 255.0).round() as u8).collect(),
        contrast_curve: (0..256u32).map(|c| (c / 2 + 64) as u8).collect(),
    }
}

#[test]
fn neutral_parameters_give_identical_buffer() {
    let img = sample();
    let out = adjust(&img, &Adjustments::neutral(), &test_tables());
    assert_eq!(out.data, img.data);
    assert_eq!((out.width, out.height), (img.width, img.height));
}

#[test]
fn parameters_within_epsilon_are_skipped() {
    let img = sample();
    let mut p = Adjustments::neutral();
    p.exposure = 1_000;
    p.gamma = UNIT - 1_000;
    p.saturation = UNIT + 1_000;
    p.shadows = -1_000;
    p.highlights = 1_000;
    p.contrast = 1_000;
    p.vibrance = -1_000;
    for s in [Stage::Exposure, Stage::Shadows, Stage::Highlights, Stage::Gamma, Stage::Brightness, Stage::Contrast, Stage::Saturation, Stage::Vibrance, Stage::HueRotation] {
        assert!(!p.runs(s));
    }
    assert_eq!(adjust(&img, &p, &test_tables()).data, img.data);
    p.exposure = 1_001;
    assert!(p.runs(Stage::Exposure));
    p.gamma = i64::MIN;
    assert!(p.runs(Stage::Gamma));
}

#[test]
fn all_stages_run_in_fixed_order() {
    let img = sample();
    let t = test_tables();
    let p = Adjustments {
        brightness: 10,
        contrast: 20 * UNIT,
        saturation: 3 * UNIT / 2,
        hue: 45,
        exposure: UNIT / 2,
        gamma: 2 * UNIT,
        shadows: 30 * UNIT,
        highlights: -30 * UNIT,
        vibrance: 25 * UNIT,
    };
    let mut e = apply_exposure(&img, t.exposure_gain);
    e = apply_shadows(&e, p.shadows);
    e = apply_highlights(&e, p.highlights);
    e = apply_curve(&e, &t.gamma_curve);
    e = apply_brightness(&e, brightness_offset(p.brightness));
    e = apply_curve(&e, &t.contrast_curve);
    e = apply_saturation(&e, p.saturation);
    e = apply_vibrance(&e, p.vibrance);
    e = apply_hue_rotation(&e, p.hue);
    let out = adjust(&img, &p, &t);
    assert_eq!(out.data, e.data);
    let alphas: Vec<u8> = out.data.chunks(4).map(|q| q[3]).collect();
    assert_eq!(alphas, vec![255, 0, 7, 128, 1, 200]);
}

#[test]
fn identity_tables_with_active_stages_still_apply_others() {
    let img = sample();
    let mut p = Adjustments::neutral();
    p.exposure = 2 * UNIT;
    p.gamma = 2 * UNIT;
    p.contrast = 50 * UNIT;
    // the tables carry the exposure gain and curves, here all neutral
    assert_eq!(adjust(&img, &p, &identity_tables()).data, img.data);
    p.saturation = 0;
    let out = adjust(&img, &p, &identity_tables());
    assert_eq!(&out.data[..4], &[150, 150, 150, 255]);
}

#[test]
fn exposure_stage_in_pipeline() {
    let img = PixelBuffer::from_rgba(1, 1, vec![100, 150, 200, 255]).unwrap();
    let mut p = Adjustments::neutral();
    p.exposure = UNIT;
    let mut t = identity_tables();
    t.exposure_gain = 2 * GAIN_ONE;
    assert_eq!(adjust(&img, &p, &t).data, vec![200, 255, 255, 255]);
}

#[test]
fn saturation_and_hue_order_matters_in_pipeline() {
    let img = PixelBuffer::from_rgba(1, 1, vec![200, 100, 50, 255]).unwrap();
    let mut p = Adjustments::neutral();
    p.saturation = UNIT / 4;
    p.hue = 90;
    let piped = adjust(&img, &p, &identity_tables());
    let reversed = apply_saturation(&apply_hue_rotation(&img, 90), UNIT / 4);
    assert_ne!(piped.data, reversed.data);
    assert_eq!(piped.data, apply_hue_rotation(&apply_saturation(&img, UNIT / 4), 90).data);
}

#[test]
fn empty_image_adjusts_to_empty() {
    let img = PixelBuffer::from_rgba(0, 5, vec![]).unwrap();
    let mut p = Adjustments::neutral();
    p.saturation = 0;
    p.hue = 30;
    p.brightness = -20;
    let out = adjust(&img, &p, &test_tables());
    assert!(out.data.is_empty());
    assert_eq!((out.width, out.height), (0, 5));
}

#[test]
fn buffer_length_must_match_dimensions() {
    assert!(PixelBuffer::from_rgba(2, 2, vec![0; 15]).is_none());
    assert!(PixelBuffer::from_rgba(2, 2, vec![0; 16]).is_some());
    assert!(PixelBuffer::from_rgba(u32::MAX, u32::MAX, vec![0; 4]).is_none());
}

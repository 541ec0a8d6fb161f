use image_adjust::imaging::{apply_brightness, apply_hue_rotation, brightness_offset};
use image_adjust::pixels::PixelBuffer;
use image_adjust::tone::{
    apply_curve, apply_exposure, apply_highlights, apply_saturation, apply_shadows, apply_vibrance,
    GAIN_ONE, UNIT,
};

fn one_pixel(r: u8, g: u8, b: u8, a: u8) -> PixelBuffer {
    PixelBuffer::from_rgba(1, 1, vec![r, g, b, a]).unwrap()
}

fn sample() -> PixelBuffer {
    PixelBuffer::from_rgba(
        3,
        2,
        vec![
            100, 150, 200, 255, 0, 0, 0, 0, 255, 255, 255, 7, 10, 200, 30, 128, 250, 20, 90, 1, 64,
            64, 64, 200,
        ],
    )
    .unwrap()
}

fn alphas(img: &PixelBuffer) -> Vec<u8> {
    img.data.chunks(4).map(|p| p[3]).collect()
}

fn gamma_table(gamma: f64) -> Vec<u8> {
    (0..256u32).map(|c| ((c as f64 / 255.0).powf(1.0 / gamma) * 255.0).round() as u8).collect()
}

#[test]
fn zero_saturation_gives_gray_of_lightness() {
    let out = apply_saturation(&one_pixel(100, 150, 200, 255), 0);
    assert_eq!(out.data, vec![150, 150, 150, 255]);
}

#[test]
fn zero_saturation_grays_every_pixel() {
    let img = sample();
    let out = apply_saturation(&img, 0);
    for (p, q) in img.data.chunks(4).zip(out.data.chunks(4)) {
        let mx = p[0].max(p[1]).max(p[2]) as u32;
        let mn = p[0].min(p[1]).min(p[2]) as u32;
        let g = ((mx + mn + 1) / 2) as u8;
        assert_eq!(q, &[g, g, g, p[3]]);
    }
}

#[test]
fn saturation_scales_and_clamps() {
    assert_eq!(apply_saturation(&one_pixel(100, 150, 200, 9), 3 * UNIT / 2).data, vec![75, 150, 225, 9]);
    assert_eq!(apply_saturation(&one_pixel(30, 200, 90, 9), UNIT / 2).data, vec![73, 158, 103, 9]);
    assert_eq!(apply_saturation(&one_pixel(100, 150, 200, 9), UNIT).data, vec![100, 150, 200, 9]);
    // factor far outside the documented range: saturation clamps to one
    assert_eq!(apply_saturation(&one_pixel(100, 150, 200, 9), 50 * UNIT).data, apply_saturation(&one_pixel(100, 150, 200, 9), 1_000 * UNIT).data);
}

#[test]
fn vibrance_moves_saturation_toward_full() {
    assert_eq!(apply_vibrance(&one_pixel(100, 150, 200, 3), 50 * UNIT).data, vec![73, 150, 228, 3]);
    assert_eq!(apply_vibrance(&one_pixel(100, 150, 200, 3), -50 * UNIT).data, vec![128, 150, 173, 3]);
    // a gray pixel has hue zero: full vibrance makes it red
    assert_eq!(apply_vibrance(&one_pixel(120, 120, 120, 3), 100 * UNIT).data, vec![240, 0, 0, 3]);
}

#[test]
fn exposure_one_stop_clamps() {
    let out = apply_exposure(&one_pixel(100, 150, 200, 255), 2 * GAIN_ONE);
    assert_eq!(out.data, vec![200, 255, 255, 255]);
}

#[test]
fn exposure_half_rounds() {
    let out = apply_exposure(&one_pixel(101, 3, 0, 40), GAIN_ONE / 2);
    assert_eq!(out.data, vec![51, 2, 0, 40]);
    let out = apply_exposure(&one_pixel(101, 3, 0, 40), u64::MAX);
    assert_eq!(out.data, vec![255, 255, 0, 40]);
}

#[test]
fn gamma_two_maps_midpoint() {
    let table = gamma_table(2.0);
    assert_eq!(table[128], 181);
    let out = apply_curve(&one_pixel(128, 0, 255, 77), &table);
    assert_eq!(out.data, vec![181, 0, 255, 77]);
}

#[test]
fn mid_luminance_pixel_is_untouched_by_shadows_and_highlights() {
    // 0.299 * 0 + 0.587 * 204 + 0.114 * 68 = 127.5, luminance exactly one half
    let img = one_pixel(0, 204, 68, 99);
    assert_eq!(apply_shadows(&img, 100 * UNIT).data, img.data);
    assert_eq!(apply_shadows(&img, -100 * UNIT).data, img.data);
    assert_eq!(apply_highlights(&img, 100 * UNIT).data, img.data);
    assert_eq!(apply_highlights(&img, -100 * UNIT).data, img.data);
}

#[test]
fn shadows_lift_dark_pixels() {
    // luminance 50/255, weight 1 - 100/255, multiplier 1 + 0.5 * 155/255
    assert_eq!(apply_shadows(&one_pixel(50, 50, 50, 1), 50 * UNIT).data, vec![65, 65, 65, 1]);
    // bright pixels are left alone
    assert_eq!(apply_shadows(&one_pixel(200, 200, 200, 1), 50 * UNIT).data, vec![200, 200, 200, 1]);
    // an extreme negative amount clamps to black
    assert_eq!(apply_shadows(&one_pixel(50, 50, 50, 1), i64::MIN).data, vec![0, 0, 0, 1]);
}

#[test]
fn highlights_lower_bright_pixels() {
    // luminance 200/255, weight 145/255, multiplier 1 - 0.5 * 145/255
    assert_eq!(apply_highlights(&one_pixel(200, 200, 200, 1), -50 * UNIT).data, vec![143, 143, 143, 1]);
    assert_eq!(apply_highlights(&one_pixel(200, 200, 200, 1), 50 * UNIT).data, vec![255, 255, 255, 1]);
    assert_eq!(apply_highlights(&one_pixel(50, 50, 50, 1), 50 * UNIT).data, vec![50, 50, 50, 1]);
}

#[test]
fn brightness_offset_scales_by_one_point_two_eight() {
    assert_eq!(brightness_offset(100), 128);
    assert_eq!(brightness_offset(-100), -128);
    assert_eq!(brightness_offset(50), 64);
    assert_eq!(brightness_offset(2), 3);
    assert_eq!(brightness_offset(-2), -3);
    assert_eq!(brightness_offset(1), 1);
    assert_eq!(brightness_offset(0), 0);
    assert_eq!(brightness_offset(i32::MAX), 2_748_779_068);
}

#[test]
fn brightness_adds_and_clamps() {
    let out = apply_brightness(&one_pixel(100, 200, 0, 50), 64);
    assert_eq!(out.data, vec![164, 255, 64, 50]);
    let out = apply_brightness(&one_pixel(100, 200, 0, 50), -150);
    assert_eq!(out.data, vec![0, 50, 0, 50]);
    let out = apply_brightness(&one_pixel(100, 200, 0, 50), 1 << 40);
    assert_eq!(out.data, vec![255, 255, 255, 50]);
}

#[test]
fn hue_rotation_changes_colour_and_keeps_alpha() {
    let img = one_pixel(200, 40, 40, 33);
    let out = apply_hue_rotation(&img, 120);
    assert_ne!(out.data[..3], img.data[..3]);
    assert_eq!(out.data[3], 33);
    assert!(out.data[1] > out.data[0]);
}

#[test]
fn every_operator_keeps_alpha_and_size() {
    let img = sample();
    let table: Vec<u8> = (0..256u32).map(|c| (255 - c) as u8).collect();
    let outs = vec![
        apply_exposure(&img, 3 * GAIN_ONE),
        apply_shadows(&img, 80 * UNIT),
        apply_highlights(&img, -80 * UNIT),
        apply_curve(&img, &table),
        apply_saturation(&img, 2 * UNIT),
        apply_vibrance(&img, -100 * UNIT),
        apply_brightness(&img, 40),
        apply_hue_rotation(&img, -90),
    ];
    for out in outs {
        assert_eq!((out.width, out.height), (3, 2));
        assert_eq!(out.data.len(), img.data.len());
        assert_eq!(alphas(&out), alphas(&img));
    }
}

#[test]
fn curve_maps_each_channel() {
    let table: Vec<u8> = (0..256u32).map(|c| (255 - c) as u8).collect();
    assert_eq!(apply_curve(&one_pixel(0, 100, 255, 5), &table).data, vec![255, 155, 0, 5]);
}

#[test]
fn saturation_then_hue_differs_from_hue_then_saturation() {
    let img = one_pixel(200, 100, 50, 255);
    let a = apply_hue_rotation(&apply_saturation(&img, UNIT / 4), 90);
    let b = apply_saturation(&apply_hue_rotation(&img, 90), UNIT / 4);
    assert_ne!(a.data, b.data);
}

#[test]
fn tiny_saturation_factor_grays_a_dull_pixel() {
    let out = apply_saturation(&one_pixel(128, 127, 127, 9), 1);
    assert_eq!(out.data, vec![128, 128, 128, 9]);
}

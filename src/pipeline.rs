use crate::imaging::{
    apply_brightness, apply_hue_rotation, brightness_offset, round_half_away,
};
use crate::pixels::{
    keeps_alpha, lemma_maps_compose, lemma_maps_ext, lemma_maps_identity, lemma_maps_keep_alpha,
    maps_pixels, alpha_at, rgb_at, PixelBuffer, Rgb,
};
use crate::tone::{
    apply_curve, apply_exposure, apply_highlights, apply_saturation, apply_shadows, apply_vibrance,
    brightened_rgb, curve_rgb, exposed_rgb, highlighted_rgb, saturated_rgb, shadowed_rgb,
    vibrant_rgb, UNIT,
};
use vstd::prelude::*;

verus! {

/// A stage is skipped when its parameter lies within this distance (in
/// millionths, so 0.001) of the identity value.
pub const EPSILON: i64 = 1_000;

/// The nine adjustment parameters. Fractional ones are fixed-point numbers in
/// millionths of their unit.
#[derive(Clone, Copy, Debug, PartialEq, Eq)]
pub struct Adjustments {
    /// -100..=100, identity 0.
    pub brightness: i32,
    /// -100..=100 in millionths, identity 0.
    pub contrast: i64,
    /// Factor 0..=2 in millionths, identity `UNIT`.
    pub saturation: i64,
    /// Degrees, -180..=180, identity 0.
    pub hue: i32,
    /// Stops, -2..=2 in millionths, identity 0.
    pub exposure: i64,
    /// 0.1..=3 in millionths, identity `UNIT`.
    pub gamma: i64,
    /// -100..=100 in millionths, identity 0.
    pub shadows: i64,
    /// -100..=100 in millionths, identity 0.
    pub highlights: i64,
    /// -100..=100 in millionths, identity 0.
    pub vibrance: i64,
}

/// What the parameters become on the channel scale where the arithmetic
/// needs powers of real numbers: two to the power of the exposure, and the
/// gamma and contrast curves.
pub struct ToneTables {
    /// Exposure multiplier over `GAIN_ONE`.
    pub exposure_gain: u64,
    /// Gamma curve, one output per channel value.
    pub gamma_curve: Vec<u8>,
    /// Contrast curve, one output per channel value.
    pub contrast_curve: Vec<u8>,
}

impl ToneTables {
    pub open spec fn wf(&self) -> bool {
        self.gamma_curve@.len() == 256 && self.contrast_curve@.len() == 256
    }
}

/// The stages of an adjustment, in the order in which they run.
#[derive(Clone, Copy, Debug, PartialEq, Eq)]
pub enum Stage {
    Exposure,
    Shadows,
    Highlights,
    Gamma,
    Brightness,
    Contrast,
    Saturation,
    Vibrance,
    HueRotation,
}

pub open spec fn stage_order() -> Seq<Stage> {
    seq![
        Stage::Exposure,
        Stage::Shadows,
        Stage::Highlights,
        Stage::Gamma,
        Stage::Brightness,
        Stage::Contrast,
        Stage::Saturation,
        Stage::Vibrance,
        Stage::HueRotation,
    ]
}

/// `x` is more than [`EPSILON`] away from `target`.
pub open spec fn departs(x: int, target: int) -> bool {
    x - target > EPSILON || target - x > EPSILON
}

fn departs_exec(x: i64, target: i64) -> (r: bool)
    ensures
        r == departs(x as int, target as int),
{
    let d: i128 = x as i128 - target as i128;
    d > EPSILON as i128 || -d > EPSILON as i128
}

impl Adjustments {
    /// Every parameter at its identity value.
    pub open spec fn neutral_spec() -> Adjustments {
        Adjustments {
            brightness: 0,
            contrast: 0,
            saturation: UNIT,
            hue: 0,
            exposure: 0,
            gamma: UNIT,
            shadows: 0,
            highlights: 0,
            vibrance: 0,
        }
    }

    /// Every parameter at its identity value.
    pub fn neutral() -> (a: Adjustments)
        ensures
            a == Adjustments::neutral_spec(),
    {
        Adjustments {
            brightness: 0,
            contrast: 0,
            saturation: UNIT,
            hue: 0,
            exposure: 0,
            gamma: UNIT,
            shadows: 0,
            highlights: 0,
            vibrance: 0,
        }
    }

    /// Whether `stage` runs: its parameter is more than [`EPSILON`] away from
    /// its identity value (the integer ones: differs from it).
    pub open spec fn runs_spec(&self, stage: Stage) -> bool {
        match stage {
            Stage::Exposure => departs(self.exposure as int, 0),
            Stage::Shadows => departs(self.shadows as int, 0),
            Stage::Highlights => departs(self.highlights as int, 0),
            Stage::Gamma => departs(self.gamma as int, UNIT as int),
            Stage::Brightness => self.brightness != 0,
            Stage::Contrast => departs(self.contrast as int, 0),
            Stage::Saturation => departs(self.saturation as int, UNIT as int),
            Stage::Vibrance => departs(self.vibrance as int, 0),
            Stage::HueRotation => self.hue != 0,
        }
    }

    /// Whether `stage` runs for these parameters.
    #[verifier::when_used_as_spec(runs_spec)]
    pub fn runs(&self, stage: Stage) -> (r: bool)
        ensures
            r == self.runs_spec(stage),
    {
        match stage {
            Stage::Exposure => departs_exec(self.exposure, 0),
            Stage::Shadows => departs_exec(self.shadows, 0),
            Stage::Highlights => departs_exec(self.highlights, 0),
            Stage::Gamma => departs_exec(self.gamma, UNIT),
            Stage::Brightness => self.brightness != 0,
            Stage::Contrast => departs_exec(self.contrast, 0),
            Stage::Saturation => departs_exec(self.saturation, UNIT),
            Stage::Vibrance => departs_exec(self.vibrance, 0),
            Stage::HueRotation => self.hue != 0,
        }
    }
}

/// The colour one stage gives a pixel of colour `p` (unchanged when the
/// stage is skipped).
pub open spec fn stage_rgb(a: Adjustments, t: ToneTables, stage: Stage, p: Rgb) -> Rgb {
    if !a.runs_spec(stage) {
        p
    } else {
        match stage {
            Stage::Exposure => exposed_rgb(p, t.exposure_gain),
            Stage::Shadows => shadowed_rgb(p, a.shadows as int),
            Stage::Highlights => highlighted_rgb(p, a.highlights as int),
            Stage::Gamma => curve_rgb(p, t.gamma_curve@),
            Stage::Brightness => brightened_rgb(p, round_half_away(128 * a.brightness, 100)),
            Stage::Contrast => curve_rgb(p, t.contrast_curve@),
            Stage::Saturation => saturated_rgb(p, a.saturation as int),
            Stage::Vibrance => vibrant_rgb(p, a.vibrance as int),
            Stage::HueRotation => p,
        }
    }
}

/// The colour of a pixel after the first `k` stages of [`stage_order`].
pub open spec fn after_stages(a: Adjustments, t: ToneTables, k: nat, p: Rgb) -> Rgb
    decreases k,
{
    if k == 0 {
        p
    } else {
        stage_rgb(a, t, stage_order()[k - 1], after_stages(a, t, (k - 1) as nat, p))
    }
}

/// The colour of a pixel after every stage but the hue rotation, which is
/// not one fixed colour map (see [`adjusted_from`]).
pub open spec fn toned_rgb(a: Adjustments, t: ToneTables, p: Rgb) -> Rgb {
    after_stages(a, t, 8, p)
}

/// The first eight stages followed by the colour map `f`.
pub open spec fn toned_then(a: Adjustments, t: ToneTables, f: spec_fn(Rgb) -> Rgb) -> spec_fn(
    Rgb,
) -> Rgb {
    |p: Rgb| f(toned_rgb(a, t, p))
}

/// `dst` is `src` adjusted: every pixel goes through the first eight stages,
/// and, when the hue rotation runs, then through one further colour map.
pub open spec fn adjusted_from(a: Adjustments, t: ToneTables, src: Seq<u8>, dst: Seq<u8>) -> bool {
    if a.runs_spec(Stage::HueRotation) {
        exists|f: spec_fn(Rgb) -> Rgb| maps_pixels(src, dst, #[trigger] toned_then(a, t, f))
    } else {
        maps_pixels(src, dst, |p: Rgb| toned_rgb(a, t, p))
    }
}

fn stage_at(k: usize) -> (s: Stage)
    requires
        k < 8,
    ensures
        s == stage_order()[k as int],
{
    match k {
        0 => Stage::Exposure,
        1 => Stage::Shadows,
        2 => Stage::Highlights,
        3 => Stage::Gamma,
        4 => Stage::Brightness,
        5 => Stage::Contrast,
        6 => Stage::Saturation,
        _ => Stage::Vibrance,
    }
}

/// Runs one stage that is not skipped.
fn run_stage(img: &PixelBuffer, a: &Adjustments, t: &ToneTables, stage: Stage) -> (out: PixelBuffer)
    requires
        img.wf(),
        t.wf(),
        a.runs_spec(stage),
        stage != Stage::HueRotation,
    ensures
        out.same_size(img),
        out.wf(),
        maps_pixels(img.data@, out.data@, |p: Rgb| stage_rgb(*a, *t, stage, p)),
{
    let out = match stage {
        Stage::Exposure => apply_exposure(img, t.exposure_gain),
        Stage::Shadows => apply_shadows(img, a.shadows),
        Stage::Highlights => apply_highlights(img, a.highlights),
        Stage::Gamma => apply_curve(img, &t.gamma_curve),
        Stage::Brightness => apply_brightness(img, brightness_offset(a.brightness)),
        Stage::Contrast => apply_curve(img, &t.contrast_curve),
        Stage::Saturation => apply_saturation(img, a.saturation),
        Stage::Vibrance => apply_vibrance(img, a.vibrance),
        Stage::HueRotation => img.duplicate(),
    };
    proof {
        let f = |p: Rgb| stage_rgb(*a, *t, stage, p);
        match stage {
            Stage::Exposure => lemma_maps_ext(img.data@, out.data@, |p: Rgb| exposed_rgb(p, t.exposure_gain), f),
            Stage::Shadows => lemma_maps_ext(img.data@, out.data@, |p: Rgb| shadowed_rgb(p, a.shadows as int), f),
            Stage::Highlights => lemma_maps_ext(img.data@, out.data@, |p: Rgb| highlighted_rgb(p, a.highlights as int), f),
            Stage::Gamma => lemma_maps_ext(img.data@, out.data@, |p: Rgb| curve_rgb(p, t.gamma_curve@), f),
            Stage::Brightness => lemma_maps_ext(img.data@, out.data@, |p: Rgb| brightened_rgb(p, round_half_away(128 * a.brightness, 100)), f),
            Stage::Contrast => lemma_maps_ext(img.data@, out.data@, |p: Rgb| curve_rgb(p, t.contrast_curve@), f),
            Stage::Saturation => lemma_maps_ext(img.data@, out.data@, |p: Rgb| saturated_rgb(p, a.saturation as int), f),
            Stage::Vibrance => lemma_maps_ext(img.data@, out.data@, |p: Rgb| vibrant_rgb(p, a.vibrance as int), f),
            Stage::HueRotation => {},
        }
    }
    out
}

/// Applies the stages in their fixed order (exposure, shadows, highlights,
/// gamma, brightness, contrast, saturation, vibrance, hue rotation), each to
/// the output of the one before, skipping those whose parameter is at its
/// identity value. The result is a new buffer of the same size with alpha
/// unchanged; when every stage is skipped it equals the input.
///
/// Exposure, gamma and contrast read their effect from `tables`: the result
/// is the adjustment by `params` as far as `tables` is what those parameters
/// give (two to the power of the exposure, the gamma and contrast curves);
/// nothing here ties the two together.
pub fn adjust(img: &PixelBuffer, params: &Adjustments, tables: &ToneTables) -> (out: PixelBuffer)
    requires
        img.wf(),
        tables.wf(),
    ensures
        out.same_size(img),
        out.wf(),
        adjusted_from(*params, *tables, img.data@, out.data@),
        keeps_alpha(img.data@, out.data@),
        *params == Adjustments::neutral_spec() ==> out.data@ == img.data@,
{
    let mut cur = img.duplicate();
    proof {
        lemma_maps_identity(img.data@);
        lemma_maps_ext(img.data@, cur.data@, |p: Rgb| p, |p: Rgb| after_stages(*params, *tables, 0, p));
    }
    let mut k: usize = 0;
    while k < 8
        invariant
            k <= 8,
            img.wf(),
            tables.wf(),
            cur.same_size(img),
            cur.wf(),
            maps_pixels(img.data@, cur.data@, |p: Rgb| after_stages(*params, *tables, k as nat, p)),
        decreases 8 - k,
    {
        let stage = stage_at(k);
        let ghost before = cur.data@;
        if params.runs(stage) {
            let next = run_stage(&cur, params, tables, stage);
            proof {
                lemma_maps_compose(
                    img.data@,
                    cur.data@,
                    next.data@,
                    |p: Rgb| after_stages(*params, *tables, k as nat, p),
                    |p: Rgb| stage_rgb(*params, *tables, stage, p),
                    |p: Rgb| after_stages(*params, *tables, (k + 1) as nat, p),
                );
            }
            cur = next;
        } else {
            proof {
                lemma_maps_identity(cur.data@);
                lemma_maps_compose(
                    img.data@,
                    cur.data@,
                    cur.data@,
                    |p: Rgb| after_stages(*params, *tables, k as nat, p),
                    |p: Rgb| p,
                    |p: Rgb| after_stages(*params, *tables, (k + 1) as nat, p),
                );
            }
        }
        k += 1;
    }
    proof {
        lemma_maps_ext(
            img.data@,
            cur.data@,
            |p: Rgb| after_stages(*params, *tables, 8, p),
            |p: Rgb| toned_rgb(*params, *tables, p),
        );
        lemma_maps_keep_alpha(img.data@, cur.data@, |p: Rgb| toned_rgb(*params, *tables, p));
        if *params == Adjustments::neutral_spec() {
            assert(img.data@.len() == 4 * (img.width * img.height)) by (nonlinear_arith)
                requires
                    img.data@.len() == 4 * (img.width as int) * (img.height as int),
            ;
            lemma_neutral_adjust_is_identity(img.data@, cur.data@, *tables);
        }
    }
    if params.runs(Stage::HueRotation) {
        let out = apply_hue_rotation(&cur, params.hue);
        proof {
            let g = choose|g: spec_fn(Rgb) -> Rgb| maps_pixels(cur.data@, out.data@, g);
            lemma_maps_compose(
                img.data@,
                cur.data@,
                out.data@,
                |p: Rgb| toned_rgb(*params, *tables, p),
                g,
                toned_then(*params, *tables, g),
            );
            lemma_maps_keep_alpha(img.data@, out.data@, toned_then(*params, *tables, g));
        }
        out
    } else {
        cur
    }
}

/// With every parameter at its identity value no stage runs, so the adjusted
/// buffer holds exactly the bytes of the input.
pub proof fn lemma_neutral_adjust_is_identity(img: Seq<u8>, out: Seq<u8>, t: ToneTables)
    requires
        img.len() % 4 == 0,
        maps_pixels(img, out, |p: Rgb| toned_rgb(Adjustments::neutral_spec(), t, p)),
    ensures
        out == img,
{
    let a = Adjustments::neutral_spec();
    assert forall|p: Rgb| #[trigger] toned_rgb(a, t, p) == p by {
        reveal_with_fuel(after_stages, 9);
    }
    assert forall|j: int| 0 <= j < img.len() implies out[j] == img[j] by {
        let i = j / 4;
        assert(0 <= i < img.len() / 4);
        assert(rgb_at(out, i) == toned_rgb(a, t, rgb_at(img, i)));
        assert(alpha_at(out, i) == alpha_at(img, i));
    }
    assert(out =~= img);
}

} // verus!

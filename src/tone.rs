use crate::arith::{clamp, lemma_round_div_exact, round_div};
use crate::color::{
    hsl_to_rgb, hsl_to_rgb_spec, max3, min3, rgb_to_hsl,
    rgb_to_hsl_spec, Hsl,
};
use crate::pixels::{alpha_at, lemma_maps_ext, maps_pixels, rgb_at, PixelBuffer, Rgb};
use vstd::prelude::*;

verus! {

/// Fixed-point scale of the fractional parameters: they are given in
/// millionths.
pub const UNIT: i64 = 1_000_000;

/// Fixed-point scale of an exposure gain: a gain of `GAIN_ONE` leaves a
/// channel as it is.
pub const GAIN_ONE: u64 = 65536;

/// Luminance of white on the scale of [`luma`].
pub const LUMA_FULL: i64 = 255_000;

/// Denominator of the shadow and highlight multipliers: the amount's scale
/// (`100 * UNIT`, a percentage in millionths) times [`LUMA_FULL`].
pub const LIFT_DEN: i128 = 25_500_000_000_000;

/// `c * gain / GAIN_ONE`, rounded and limited to 255.
pub open spec fn exposed_channel(c: u8, gain: u64) -> u8 {
    clamp(round_div(c * gain, GAIN_ONE as int), 0, 255) as u8
}

pub open spec fn exposed_rgb(p: Rgb, gain: u64) -> Rgb {
    (exposed_channel(p.0, gain), exposed_channel(p.1, gain), exposed_channel(p.2, gain))
}

/// Luminance `0.299 R + 0.587 G + 0.114 B` of the normalised channels, times
/// [`LUMA_FULL`].
pub open spec fn luma(p: Rgb) -> int {
    299 * p.0 + 587 * p.1 + 114 * p.2
}

/// `max(0, 1 - 2 L)` on the scale of [`LUMA_FULL`]: full for black, fading
/// to nothing at luminance one half.
pub open spec fn shadow_weight(p: Rgb) -> int {
    if 2 * luma(p) < LUMA_FULL {
        LUMA_FULL - 2 * luma(p)
    } else {
        0
    }
}

/// `max(0, 2 (L - 0.5))` on the scale of [`LUMA_FULL`]: nothing up to
/// luminance one half, full for white.
pub open spec fn highlight_weight(p: Rgb) -> int {
    if 2 * luma(p) > LUMA_FULL {
        2 * luma(p) - LUMA_FULL
    } else {
        0
    }
}

/// The channel times `1 + (amount / 100) * weight`, rounded and limited to
/// `0..=255` (`amount` in millionths, `weight` on the scale of
/// [`LUMA_FULL`]).
pub open spec fn lifted_channel(c: u8, amount: int, weight: int) -> u8 {
    let num = c * (LIFT_DEN + amount * weight);
    if num <= 0 {
        0
    } else {
        clamp(round_div(num, LIFT_DEN as int), 0, 255) as u8
    }
}

pub open spec fn lifted_rgb(p: Rgb, amount: int, weight: int) -> Rgb {
    (
        lifted_channel(p.0, amount, weight),
        lifted_channel(p.1, amount, weight),
        lifted_channel(p.2, amount, weight),
    )
}

pub open spec fn shadowed_rgb(p: Rgb, amount: int) -> Rgb {
    lifted_rgb(p, amount, shadow_weight(p))
}

pub open spec fn highlighted_rgb(p: Rgb, amount: int) -> Rgb {
    lifted_rgb(p, amount, highlight_weight(p))
}

/// `h` with its saturation replaced by `num / den`.
pub open spec fn with_saturation(h: Hsl, num: int, den: int) -> Hsl {
    Hsl {
        hue_num: h.hue_num,
        hue_den: h.hue_den,
        sat_num: num as u64,
        sat_den: den as u64,
        light_num: h.light_num,
    }
}

/// The colour with its HSL saturation multiplied by `factor / UNIT` and
/// limited to `[0, 1]`.
pub open spec fn saturated_rgb(p: Rgb, factor: int) -> Rgb {
    let h = rgb_to_hsl_spec(p.0, p.1, p.2);
    let den = h.sat_den * UNIT;
    hsl_to_rgb_spec(with_saturation(h, clamp(h.sat_num * factor, 0, den), den))
}

/// The colour with its HSL saturation `s` moved to `s + a * (1 - s)`, limited
/// to `[0, 1]`, where `a = amount / (100 * UNIT)`.
pub open spec fn vibrant_rgb(p: Rgb, amount: int) -> Rgb {
    let h = rgb_to_hsl_spec(p.0, p.1, p.2);
    let (sn, sd) = (h.sat_num as int, h.sat_den as int);
    let den = sd * (100 * UNIT);
    hsl_to_rgb_spec(
        with_saturation(h, clamp(sn * (100 * UNIT) + amount * (sd - sn), 0, den), den),
    )
}

/// Each channel looked up in a 256-entry table.
pub open spec fn curve_rgb(p: Rgb, table: Seq<u8>) -> Rgb {
    (table[p.0 as int], table[p.1 as int], table[p.2 as int])
}

/// A per-pixel colour operator.
pub enum Tone {
    /// Multiply every channel by `gain / GAIN_ONE`.
    Exposure(u64),
    /// Lift or lower dark pixels by an amount in millionths of a percent.
    Shadows(i64),
    /// Lift or lower bright pixels by an amount in millionths of a percent.
    Highlights(i64),
    /// Scale the saturation by a factor in millionths.
    Saturation(i64),
    /// Raise the saturation of dull colours by an amount in millionths of a
    /// percent.
    Vibrance(i64),
    /// Map every channel through a 256-entry table.
    Curve(Vec<u8>),
}

impl Tone {
    pub open spec fn wf(&self) -> bool {
        self matches Tone::Curve(t) ==> t@.len() == 256
    }

    /// The colour this operator gives for `p`.
    pub open spec fn rgb_spec(&self, p: Rgb) -> Rgb {
        match self {
            Tone::Exposure(gain) => exposed_rgb(p, *gain),
            Tone::Shadows(amount) => shadowed_rgb(p, *amount as int),
            Tone::Highlights(amount) => highlighted_rgb(p, *amount as int),
            Tone::Saturation(factor) => saturated_rgb(p, *factor as int),
            Tone::Vibrance(amount) => vibrant_rgb(p, *amount as int),
            Tone::Curve(t) => curve_rgb(p, t@),
        }
    }
}

fn exposed(c: u8, gain: u64) -> (r: u8)
    ensures
        r == exposed_channel(c, gain),
{
    proof {
        assert(c as u128 * gain as u128 <= 255 * 0xffff_ffff_ffff_ffff) by (nonlinear_arith)
            requires
                c <= 255,
                gain <= 0xffff_ffff_ffff_ffff,
        ;
    }
    let num: u128 = c as u128 * gain as u128;
    let v: u128 = (2 * num + GAIN_ONE as u128) / (2 * GAIN_ONE as u128);
    if v > 255 {
        255
    } else {
        v as u8
    }
}

fn lifted(c: u8, amount: i64, weight: i64) -> (r: u8)
    requires
        0 <= weight <= LUMA_FULL,
    ensures
        r == lifted_channel(c, amount as int, weight as int),
{
    proof {
        assert(-0x8000_0000_0000_0000 * 255_000 <= amount * weight <= 0x7fff_ffff_ffff_ffff * 255_000)
            by (nonlinear_arith)
            requires
                0 <= weight <= 255_000,
                -0x8000_0000_0000_0000 <= amount <= 0x7fff_ffff_ffff_ffff,
        ;
    }
    let m: i128 = LIFT_DEN + amount as i128 * weight as i128;
    proof {
        assert(-255 * 0x8000_0000_0000_0000 * 256_000 <= c * m <= 255 * 0x8000_0000_0000_0000 * 256_000)
            by (nonlinear_arith)
            requires
                -0x8000_0000_0000_0000 * 256_000 <= m <= 0x8000_0000_0000_0000 * 256_000,
                0 <= c <= 255,
        ;
    }
    let num: i128 = c as i128 * m;
    if num <= 0 {
        0
    } else {
        let v: i128 = (2 * num + LIFT_DEN) / (2 * LIFT_DEN);
        if v > 255 {
            255
        } else {
            proof {
                vstd::arithmetic::div_mod::lemma_div_pos_is_pos(2 * num + LIFT_DEN, 2 * LIFT_DEN);
            }
            v as u8
        }
    }
}

fn luma_of(p: Rgb) -> (l: i64)
    ensures
        l == luma(p),
        0 <= l <= LUMA_FULL,
{
    299 * p.0 as i64 + 587 * p.1 as i64 + 114 * p.2 as i64
}

/// Sets the saturation of `h` to `num / den`, limited to `[0, 1]`.
fn resaturate(h: &Hsl, num: i128, den: u64) -> (r: Rgb)
    requires
        h.wf(),
        1 <= den <= crate::color::MAX_DEN,
    ensures
        r == hsl_to_rgb_spec(with_saturation(*h, clamp(num as int, 0, den as int), den as int)),
{
    let s: u64 = if num < 0 {
        0
    } else if num > den as i128 {
        den
    } else {
        num as u64
    };
    let g = Hsl {
        hue_num: h.hue_num,
        hue_den: h.hue_den,
        sat_num: s,
        sat_den: den,
        light_num: h.light_num,
    };
    hsl_to_rgb(&g)
}

impl Tone {
    /// The colour this operator gives for `p`.
    pub fn apply_to_rgb(&self, p: Rgb) -> (q: Rgb)
        requires
            self.wf(),
        ensures
            q == self.rgb_spec(p),
    {
        match self {
            Tone::Exposure(gain) => (exposed(p.0, *gain), exposed(p.1, *gain), exposed(p.2, *gain)),
            Tone::Shadows(amount) => {
                let l = luma_of(p);
                let w: i64 = if 2 * l < LUMA_FULL {
                    LUMA_FULL - 2 * l
                } else {
                    0
                };
                (lifted(p.0, *amount, w), lifted(p.1, *amount, w), lifted(p.2, *amount, w))
            },
            Tone::Highlights(amount) => {
                let l = luma_of(p);
                let w: i64 = if 2 * l > LUMA_FULL {
                    2 * l - LUMA_FULL
                } else {
                    0
                };
                (lifted(p.0, *amount, w), lifted(p.1, *amount, w), lifted(p.2, *amount, w))
            },
            Tone::Saturation(factor) => {
                let h = rgb_to_hsl(p.0, p.1, p.2);
                proof {
                    assert(h.sat_num * *factor <= 255 * 0x8000_0000_0000_0000 && h.sat_num * *factor
                        >= -255 * 0x8000_0000_0000_0000) by (nonlinear_arith)
                        requires
                            h.sat_num <= 255,
                            -0x8000_0000_0000_0000 <= *factor <= 0x7fff_ffff_ffff_ffff,
                    ;
                }
                assert(h.sat_den * 1_000_000 <= 255_000_000);
                let den: u64 = h.sat_den * 1_000_000;
                resaturate(&h, h.sat_num as i128 * *factor as i128, den)
            },
            Tone::Vibrance(amount) => {
                let h = rgb_to_hsl(p.0, p.1, p.2);
                let scale: i128 = 100 * UNIT as i128;
                proof {
                    assert(*amount * (h.sat_den - h.sat_num) <= 255 * 0x8000_0000_0000_0000
                        && *amount * (h.sat_den - h.sat_num) >= -255 * 0x8000_0000_0000_0000)
                        by (nonlinear_arith)
                        requires
                            0 <= h.sat_den - h.sat_num <= 255,
                            -0x8000_0000_0000_0000 <= *amount <= 0x7fff_ffff_ffff_ffff,
                    ;
                }
                assert(h.sat_den * 100_000_000 <= 25_500_000_000);
                let den: u64 = h.sat_den * 100_000_000;
                let num: i128 = h.sat_num as i128 * scale + *amount as i128 * (h.sat_den
                    - h.sat_num) as i128;
                resaturate(&h, num, den)
            },
            Tone::Curve(t) => (t[p.0 as usize], t[p.1 as usize], t[p.2 as usize]),
        }
    }
}

/// Applies a per-pixel operator to every pixel, into a new buffer of the same
/// size; alpha is copied.
pub fn apply_tone(img: &PixelBuffer, tone: &Tone) -> (out: PixelBuffer)
    requires
        img.wf(),
        tone.wf(),
    ensures
        out.same_size(img),
        out.wf(),
        maps_pixels(img.data@, out.data@, |p: Rgb| tone.rgb_spec(p)),
{
    proof {
        let wh = img.width as int * img.height as int;
        assert(img.data@.len() == 4 * wh) by (nonlinear_arith)
            requires
                img.data@.len() == 4 * (img.width as int) * (img.height as int),
                wh == img.width as int * img.height as int,
        ;
    }
    let len: usize = img.data.len();
    let n: usize = len / 4;
    let mut data: Vec<u8> = Vec::with_capacity(img.data.len());
    let mut i: usize = 0;
    while i < n
        invariant
            n == img.data@.len() / 4,
            len == img.data@.len(),
            img.data@.len() % 4 == 0,
            tone.wf(),
            i <= n,
            data@.len() == 4 * i,
            forall|j: int|
                0 <= j < i ==> #[trigger] rgb_at(data@, j) == tone.rgb_spec(rgb_at(img.data@, j))
                    && alpha_at(data@, j) == alpha_at(img.data@, j),
        decreases n - i,
    {
        assert(4 * i + 3 < img.data@.len());
        let k = 4 * i;
        let p: Rgb = (img.data[k], img.data[k + 1], img.data[k + 2]);
        let q = tone.apply_to_rgb(p);
        let ghost prev = data@;
        data.push(q.0);
        data.push(q.1);
        data.push(q.2);
        data.push(img.data[k + 3]);
        proof {
            assert forall|j: int| 0 <= j < i + 1 implies #[trigger] rgb_at(data@, j) == tone.rgb_spec(
                rgb_at(img.data@, j),
            ) && alpha_at(data@, j) == alpha_at(img.data@, j) by {
                if j == i {
                    assert(rgb_at(img.data@, j) == p);
                } else {
                    assert(rgb_at(prev, j) == tone.rgb_spec(rgb_at(img.data@, j)));
                    assert(alpha_at(prev, j) == alpha_at(img.data@, j));
                }
            }
        }
        i += 1;
    }
    PixelBuffer { width: img.width, height: img.height, data }
}


/// Each channel plus `offset`, limited to `0..=255`.
pub open spec fn brightened_rgb(p: Rgb, offset: int) -> Rgb {
    (
        clamp(p.0 + offset, 0, 255) as u8,
        clamp(p.1 + offset, 0, 255) as u8,
        clamp(p.2 + offset, 0, 255) as u8,
    )
}

/// A copy of a 256-entry table.
fn copy_table(t: &Vec<u8>) -> (r: Vec<u8>)
    ensures
        r@ == t@,
{
    let r = t.clone();
    proof {
        assert(r@ =~= t@);
    }
    r
}

/// Exposure: every channel times `gain / GAIN_ONE` (two to the power of the
/// exposure in stops), rounded and limited to 255.
pub fn apply_exposure(img: &PixelBuffer, gain: u64) -> (out: PixelBuffer)
    requires
        img.wf(),
    ensures
        out.same_size(img),
        out.wf(),
        maps_pixels(img.data@, out.data@, |p: Rgb| exposed_rgb(p, gain)),
{
    let tone = Tone::Exposure(gain);
    let out = apply_tone(img, &tone);
    proof {
        lemma_maps_ext(img.data@, out.data@, |p: Rgb| tone.rgb_spec(p), |p: Rgb| exposed_rgb(p, gain));
    }
    out
}

/// Shadow recovery: pixels darker than luminance one half are scaled by
/// `1 + (amount / 100) * (1 - 2 L)`, with `amount` in millionths.
pub fn apply_shadows(img: &PixelBuffer, amount: i64) -> (out: PixelBuffer)
    requires
        img.wf(),
    ensures
        out.same_size(img),
        out.wf(),
        maps_pixels(img.data@, out.data@, |p: Rgb| shadowed_rgb(p, amount as int)),
{
    let tone = Tone::Shadows(amount);
    let out = apply_tone(img, &tone);
    proof {
        lemma_maps_ext(
            img.data@,
            out.data@,
            |p: Rgb| tone.rgb_spec(p),
            |p: Rgb| shadowed_rgb(p, amount as int),
        );
    }
    out
}

/// Highlight recovery: pixels brighter than luminance one half are scaled by
/// `1 + (amount / 100) * (2 L - 1)`, with `amount` in millionths.
pub fn apply_highlights(img: &PixelBuffer, amount: i64) -> (out: PixelBuffer)
    requires
        img.wf(),
    ensures
        out.same_size(img),
        out.wf(),
        maps_pixels(img.data@, out.data@, |p: Rgb| highlighted_rgb(p, amount as int)),
{
    let tone = Tone::Highlights(amount);
    let out = apply_tone(img, &tone);
    proof {
        lemma_maps_ext(
            img.data@,
            out.data@,
            |p: Rgb| tone.rgb_spec(p),
            |p: Rgb| highlighted_rgb(p, amount as int),
        );
    }
    out
}

/// A tone curve: every colour channel looked up in a 256-entry table.
pub fn apply_curve(img: &PixelBuffer, table: &Vec<u8>) -> (out: PixelBuffer)
    requires
        img.wf(),
        table@.len() == 256,
    ensures
        out.same_size(img),
        out.wf(),
        maps_pixels(img.data@, out.data@, |p: Rgb| curve_rgb(p, table@)),
{
    let tone = Tone::Curve(copy_table(table));
    let out = apply_tone(img, &tone);
    proof {
        lemma_maps_ext(img.data@, out.data@, |p: Rgb| tone.rgb_spec(p), |p: Rgb| curve_rgb(p, table@));
    }
    out
}

/// Saturation: the HSL saturation of every pixel times `factor / UNIT`,
/// limited to `[0, 1]`.
pub fn apply_saturation(img: &PixelBuffer, factor: i64) -> (out: PixelBuffer)
    requires
        img.wf(),
    ensures
        out.same_size(img),
        out.wf(),
        maps_pixels(img.data@, out.data@, |p: Rgb| saturated_rgb(p, factor as int)),
{
    let tone = Tone::Saturation(factor);
    let out = apply_tone(img, &tone);
    proof {
        lemma_maps_ext(
            img.data@,
            out.data@,
            |p: Rgb| tone.rgb_spec(p),
            |p: Rgb| saturated_rgb(p, factor as int),
        );
    }
    out
}

/// Vibrance: the HSL saturation `s` of every pixel moved to
/// `s + a * (1 - s)`, limited to `[0, 1]`, where `a` is `amount` (millionths
/// of a percent) over one hundred.
pub fn apply_vibrance(img: &PixelBuffer, amount: i64) -> (out: PixelBuffer)
    requires
        img.wf(),
    ensures
        out.same_size(img),
        out.wf(),
        maps_pixels(img.data@, out.data@, |p: Rgb| vibrant_rgb(p, amount as int)),
{
    let tone = Tone::Vibrance(amount);
    let out = apply_tone(img, &tone);
    proof {
        lemma_maps_ext(
            img.data@,
            out.data@,
            |p: Rgb| tone.rgb_spec(p),
            |p: Rgb| vibrant_rgb(p, amount as int),
        );
    }
    out
}

/// Saturation factor zero turns every colour into the gray of its
/// lightness: all three channels become `round(l * 255)`, that is
/// `round((max + min) / 2)`.
pub proof fn lemma_zero_saturation_is_gray(p: Rgb)
    ensures
        ({
            let g = round_div(max3(p.0 as int, p.1 as int, p.2 as int) + min3(
                p.0 as int,
                p.1 as int,
                p.2 as int,
            ), 2) as u8;
            saturated_rgb(p, 0) == (g, g, g)
        }),
{
    let h = rgb_to_hsl_spec(p.0, p.1, p.2);
    let den = h.sat_den * UNIT;
    let g = with_saturation(h, clamp(h.sat_num * 0, 0, den), den);
    assert(h.sat_num * 0 == 0);
    assert(g.wf());
    assert(crate::color::near_gray(g));
}

/// A pixel of luminance exactly one half has zero shadow weight and zero
/// highlight weight, so neither adjustment changes it, whatever the amount.
pub proof fn lemma_mid_luminance_untouched(p: Rgb, amount: int)
    requires
        2 * luma(p) == LUMA_FULL,
    ensures
        shadow_weight(p) == 0,
        highlight_weight(p) == 0,
        shadowed_rgb(p, amount) == p,
        highlighted_rgb(p, amount) == p,
{
    assert(amount * 0 == 0);
    lemma_round_div_exact(p.0 as int, LIFT_DEN as int);
    lemma_round_div_exact(p.1 as int, LIFT_DEN as int);
    lemma_round_div_exact(p.2 as int, LIFT_DEN as int);
    assert(lifted_channel(p.0, amount, 0) == p.0);
    assert(lifted_channel(p.1, amount, 0) == p.1);
    assert(lifted_channel(p.2, amount, 0) == p.2);
}

} // verus!

use crate::arith::{lemma_round_div_bounds, lemma_round_div_exact, round_div};
use vstd::prelude::*;

verus! {

/// Largest denominator an [`Hsl`] component may carry.
pub const MAX_DEN: u64 = 1_099_511_627_776;

/// A colour in hue, saturation and lightness, held as exact fractions.
///
/// - hue, in sixths of a turn: `hue_num / hue_den`, in `[0, 6)`
///   (degrees are sixty times that);
/// - saturation: `sat_num / sat_den`, in `[0, 1]`;
/// - lightness: `light_num / 510`, in `[0, 1]`.
#[derive(Clone, Copy, Debug, PartialEq, Eq)]
pub struct Hsl {
    pub hue_num: u64,
    pub hue_den: u64,
    pub sat_num: u64,
    pub sat_den: u64,
    pub light_num: u64,
}

impl Hsl {
    pub open spec fn wf(&self) -> bool {
        &&& 1 <= self.hue_den <= MAX_DEN
        &&& self.hue_num < 6 * self.hue_den
        &&& 1 <= self.sat_den <= MAX_DEN
        &&& self.sat_num <= self.sat_den
        &&& self.light_num <= 510
    }
}

pub open spec fn max3(r: int, g: int, b: int) -> int {
    if r >= g && r >= b {
        r
    } else if g >= b {
        g
    } else {
        b
    }
}

pub open spec fn min3(r: int, g: int, b: int) -> int {
    if r <= g && r <= b {
        r
    } else if g <= b {
        g
    } else {
        b
    }
}

/// The hue numerator over the denominator `max - min`, chosen by the channel
/// that attains the maximum (red first, then green).
pub open spec fn hue_sixths(r: int, g: int, b: int) -> int {
    let d = max3(r, g, b) - min3(r, g, b);
    if max3(r, g, b) == r {
        if g < b {
            g - b + 6 * d
        } else {
            g - b
        }
    } else if max3(r, g, b) == g {
        b - r + 2 * d
    } else {
        r - g + 4 * d
    }
}

/// HSL of an RGB triple. With `sum = max + min` and `d = max - min` (on the
/// 0..=255 scale): lightness is `sum / 510`; an achromatic colour (`d == 0`)
/// has hue and saturation 0; otherwise saturation is `d / sum` when the
/// lightness is at most one half and `d / (510 - sum)` above, and the hue is
/// `hue_sixths / d` sixths of a turn.
pub open spec fn rgb_to_hsl_spec(r: u8, g: u8, b: u8) -> Hsl {
    let (r, g, b) = (r as int, g as int, b as int);
    let mx = max3(r, g, b);
    let mn = min3(r, g, b);
    let d = mx - mn;
    let sum = mx + mn;
    if d == 0 {
        Hsl { hue_num: 0, hue_den: 1, sat_num: 0, sat_den: 1, light_num: sum as u64 }
    } else {
        Hsl {
            hue_num: hue_sixths(r, g, b) as u64,
            hue_den: d as u64,
            sat_num: d as u64,
            sat_den: (if sum > 255 { 510 - sum } else { sum }) as u64,
            light_num: sum as u64,
        }
    }
}

/// `q` of the HSL to RGB conversion, as a numerator over `510 * sat_den`:
/// `l * (1 + s)` below lightness one half, `l + s - l * s` from there on.
pub open spec fn q_num(h: Hsl) -> int {
    let (ln, sn, sd) = (h.light_num as int, h.sat_num as int, h.sat_den as int);
    if ln < 255 {
        ln * (sd + sn)
    } else {
        ln * sd + 510 * sn - ln * sn
    }
}

/// `p = 2 * l - q`, over the same denominator as [`q_num`].
pub open spec fn p_num(h: Hsl) -> int {
    2 * (h.light_num as int) * (h.sat_den as int) - q_num(h)
}

/// The piecewise hue ramp at position `t / den` (sixths of a turn, in
/// `[0, 6)`), as a numerator over `den`: rising on `[0, 1)`, full on
/// `[1, 3)`, falling on `[3, 4)`, zero on `[4, 6)`.
pub open spec fn hue_ramp(t: int, den: int) -> int {
    if t < den {
        t
    } else if t < 3 * den {
        den
    } else if t < 4 * den {
        4 * den - t
    } else {
        0
    }
}

/// Hue position `t` moved on by `k` sixths of a turn, wrapped into `[0, 6)`.
pub open spec fn hue_shift(t: int, k: int, den: int) -> int {
    if t + k * den < 6 * den {
        t + k * den
    } else {
        t + k * den - 6 * den
    }
}

/// One channel: `round(255 * (p + (q - p) * ramp(t)))`.
pub open spec fn channel_spec(h: Hsl, t: int) -> int {
    let hd = h.hue_den as int;
    let pn = p_num(h);
    let qn = q_num(h);
    round_div(pn * hd + (qn - pn) * hue_ramp(t, hd), 2 * (h.sat_den as int) * hd)
}

/// Saturations below this power of two (`2^-23`, the single-precision
/// epsilon) count as zero.
pub const GRAY_SCALE: u64 = 8_388_608;

/// The saturation is below `2^-23`: the colour counts as a gray.
pub open spec fn near_gray(h: Hsl) -> bool {
    h.sat_num * GRAY_SCALE < h.sat_den
}

/// RGB of an HSL colour. A colour whose saturation counts as zero is the
/// gray `round(l * 255)` on all three channels; otherwise red, green and blue
/// read the hue ramp a third of a turn ahead, at the hue, and a third of a
/// turn behind.
pub open spec fn hsl_to_rgb_spec(h: Hsl) -> (u8, u8, u8) {
    let (hn, hd) = (h.hue_num as int, h.hue_den as int);
    if near_gray(h) {
        let g = round_div(h.light_num as int, 2) as u8;
        (g, g, g)
    } else {
        (
            channel_spec(h, hue_shift(hn, 2, hd)) as u8,
            channel_spec(h, hn) as u8,
            channel_spec(h, hue_shift(hn, 4, hd)) as u8,
        )
    }
}

proof fn lemma_pq_bounds(h: Hsl)
    requires
        h.wf(),
    ensures
        0 <= p_num(h) <= q_num(h) <= 510 * (h.sat_den as int),
{
    let (ln, sn, sd) = (h.light_num as int, h.sat_num as int, h.sat_den as int);
    if ln < 255 {
        assert(0 <= 2 * ln * sd - ln * (sd + sn) <= ln * (sd + sn) <= 510 * sd) by (nonlinear_arith)
            requires
                0 <= ln < 255,
                0 <= sn <= sd,
        ;
    } else {
        assert(0 <= 2 * ln * sd - (ln * sd + 510 * sn - ln * sn) <= ln * sd + 510 * sn - ln * sn
            <= 510 * sd) by (nonlinear_arith)
            requires
                255 <= ln <= 510,
                0 <= sn <= sd,
        ;
    }
}

/// Every channel the HSL to RGB conversion computes already lies in
/// `0..=255`, so storing it in a byte loses nothing; the other operators
/// clamp their results into that range.
pub proof fn lemma_channel_bounds(h: Hsl, t: int)
    requires
        h.wf(),
        0 <= t < 6 * h.hue_den,
    ensures
        0 <= channel_spec(h, t) <= 255,
{
    let hd = h.hue_den as int;
    let sd = h.sat_den as int;
    let pn = p_num(h);
    let qn = q_num(h);
    let w = hue_ramp(t, hd);
    lemma_pq_bounds(h);
    assert(0 <= w <= hd);
    assert(0 <= pn * hd + (qn - pn) * w <= 255 * (2 * sd * hd)) by (nonlinear_arith)
        requires
            0 <= pn <= qn <= 510 * sd,
            0 <= w <= hd,
            1 <= hd,
    ;
    assert(2 * sd * hd > 0) by (nonlinear_arith)
        requires
            sd >= 1,
            hd >= 1,
    ;
    lemma_round_div_bounds(pn * hd + (qn - pn) * w, 2 * sd * hd, 255);
}

proof fn lemma_pq_of_rgb(r: u8, g: u8, b: u8)
    requires
        max3(r as int, g as int, b as int) > min3(r as int, g as int, b as int),
    ensures
        ({
            let h = rgb_to_hsl_spec(r, g, b);
            let sd = h.sat_den as int;
            &&& q_num(h) == 2 * sd * max3(r as int, g as int, b as int)
            &&& p_num(h) == 2 * sd * min3(r as int, g as int, b as int)
        }),
{
    let h = rgb_to_hsl_spec(r, g, b);
    let mx = max3(r as int, g as int, b as int);
    let mn = min3(r as int, g as int, b as int);
    let (ln, sn, sd) = (h.light_num as int, h.sat_num as int, h.sat_den as int);
    assert(ln == mx + mn && sn == mx - mn);
    if ln < 255 {
        assert(sd == ln);
        assert(ln * (sd + sn) == 2 * sd * mx) by (nonlinear_arith)
            requires
                sd == ln,
                ln == mx + mn,
                sn == mx - mn,
        ;
    } else {
        assert(sd == 510 - ln);
        assert(ln * sd + 510 * sn - ln * sn == 2 * sd * mx) by (nonlinear_arith)
            requires
                sd == 510 - ln,
                ln == mx + mn,
                sn == mx - mn,
        ;
    }
    assert(2 * ln * sd - 2 * sd * mx == 2 * sd * mn) by (nonlinear_arith)
        requires
            ln == mx + mn,
    ;
}

proof fn lemma_channel_recovers(h: Hsl, t: int, mx: int, mn: int, c: int)
    requires
        h.wf(),
        h.hue_den == mx - mn,
        mn < mx,
        0 <= mn <= c,
        q_num(h) == 2 * (h.sat_den as int) * mx,
        p_num(h) == 2 * (h.sat_den as int) * mn,
        hue_ramp(t, h.hue_den as int) == c - mn,
    ensures
        channel_spec(h, t) == c,
{
    let hd = h.hue_den as int;
    let sd = h.sat_den as int;
    let pn = p_num(h);
    let qn = q_num(h);
    let w = hue_ramp(t, hd);
    assert(pn * hd + (qn - pn) * w == c * (2 * sd * hd)) by (nonlinear_arith)
        requires
            pn == 2 * sd * mn,
            qn == 2 * sd * mx,
            hd == mx - mn,
            w == c - mn,
    ;
    assert(2 * sd * hd > 0) by (nonlinear_arith)
        requires
            sd >= 1,
            hd >= 1,
    ;
    lemma_round_div_exact(c, 2 * sd * hd);
}

/// Converting an RGB triple to HSL and back gives the same triple: with exact
/// arithmetic the round trip loses nothing, so it is in particular within one
/// unit per channel.
pub proof fn lemma_hsl_round_trip(r: u8, g: u8, b: u8)
    ensures
        hsl_to_rgb_spec(rgb_to_hsl_spec(r, g, b)) == (r, g, b),
{
    let h = rgb_to_hsl_spec(r, g, b);
    let (ri, gi, bi) = (r as int, g as int, b as int);
    let mx = max3(ri, gi, bi);
    let mn = min3(ri, gi, bi);
    if mx == mn {
        assert(ri == mx && gi == mx && bi == mx);
        assert(h.wf() && h.sat_num == 0 && h.light_num == 2 * mx);
        assert(near_gray(h));
        lemma_round_div_exact(mx, 2);
        assert(2 * mx == mx * 2);
    } else {
        let d = mx - mn;
        let hn = h.hue_num as int;
        lemma_pq_of_rgb(r, g, b);
        assert(h.wf());
        assert(!near_gray(h));
        assert(hue_ramp(hue_shift(hn, 2, d), d) == ri - mn);
        assert(hue_ramp(hn, d) == gi - mn);
        assert(hue_ramp(hue_shift(hn, 4, d), d) == bi - mn);
        lemma_channel_recovers(h, hue_shift(hn, 2, d), mx, mn, ri);
        lemma_channel_recovers(h, hn, mx, mn, gi);
        lemma_channel_recovers(h, hue_shift(hn, 4, d), mx, mn, bi);
    }
}

/// Converts an RGB triple to hue, saturation and lightness.
pub fn rgb_to_hsl(r: u8, g: u8, b: u8) -> (hsl: Hsl)
    ensures
        hsl == rgb_to_hsl_spec(r, g, b),
        hsl.wf(),
        hsl.hue_den <= 255,
        hsl.sat_den <= 255,
{
    let (ri, gi, bi) = (r as u64, g as u64, b as u64);
    let mx: u64 = if ri >= gi && ri >= bi {
        ri
    } else if gi >= bi {
        gi
    } else {
        bi
    };
    let mn: u64 = if ri <= gi && ri <= bi {
        ri
    } else if gi <= bi {
        gi
    } else {
        bi
    };
    let d: u64 = mx - mn;
    let sum: u64 = mx + mn;
    if d == 0 {
        return Hsl { hue_num: 0, hue_den: 1, sat_num: 0, sat_den: 1, light_num: sum };
    }
    let sat_den: u64 = if sum > 255 {
        510 - sum
    } else {
        sum
    };
    let hue_num: u64 = if mx == ri {
        if gi < bi {
            gi + 6 * d - bi
        } else {
            gi - bi
        }
    } else if mx == gi {
        bi + 2 * d - ri
    } else {
        ri + 4 * d - gi
    };
    Hsl { hue_num, hue_den: d, sat_num: d, sat_den, light_num: sum }
}

fn channel(h: &Hsl, t: u64) -> (c: u8)
    requires
        h.wf(),
        t < 6 * h.hue_den,
    ensures
        c == channel_spec(*h, t as int),
{
    let hd = h.hue_den as u128;
    let sd = h.sat_den as u128;
    let sn = h.sat_num as u128;
    let ln = h.light_num as u128;
    let t = t as u128;
    proof {
        lemma_pq_bounds(*h);
        lemma_channel_bounds(*h, t as int);
        assert(ln * sd <= 510 * MAX_DEN && ln * sn <= ln * sd && ln * sn <= 510 * MAX_DEN)
            by (nonlinear_arith)
            requires
                ln <= 510,
                sn <= sd,
                sd <= MAX_DEN,
        ;
    }
    let w: u128 = if t < hd {
        t
    } else if t < 3 * hd {
        hd
    } else if t < 4 * hd {
        4 * hd - t
    } else {
        0
    };
    let qn: u128 = if ln < 255 {
        ln * sd + ln * sn
    } else {
        ln * sd + 510 * sn - ln * sn
    };
    proof {
        assert(ln * (sd + sn) == ln * sd + ln * sn) by (nonlinear_arith);
        assert(qn == q_num(*h));
        assert(2 * ln * sd == 2 * (ln * sd)) by (nonlinear_arith);
    }
    let pn: u128 = 2 * (ln * sd) - qn;
    proof {
        assert(pn * hd <= 510 * MAX_DEN * MAX_DEN) by (nonlinear_arith)
            requires
                pn <= 510 * sd,
                sd <= MAX_DEN,
                hd <= MAX_DEN,
        ;
        assert((qn - pn) * w <= 510 * MAX_DEN * MAX_DEN) by (nonlinear_arith)
            requires
                qn - pn <= 510 * sd,
                sd <= MAX_DEN,
                w <= hd,
                hd <= MAX_DEN,
        ;
        assert(sd * hd <= MAX_DEN * MAX_DEN) by (nonlinear_arith)
            requires
                sd <= MAX_DEN,
                hd <= MAX_DEN,
        ;
    }
    let num: u128 = pn * hd + (qn - pn) * w;
    let den: u128 = 2 * (sd * hd);
    proof {
        assert(2 * (sd * hd) == 2 * (h.sat_den as int) * (h.hue_den as int) && sd * hd >= 1)
            by (nonlinear_arith)
            requires
                sd == h.sat_den,
                hd == h.hue_den,
                sd >= 1,
                hd >= 1,
        ;
    }
    let v: u128 = (2 * num + den) / (2 * den);
    v as u8
}

/// Converts hue, saturation and lightness back to an RGB triple, each channel
/// rounded to the nearest integer.
pub fn hsl_to_rgb(h: &Hsl) -> (rgb: (u8, u8, u8))
    requires
        h.wf(),
    ensures
        rgb == hsl_to_rgb_spec(*h),
{
    if (h.sat_num as u128) * (GRAY_SCALE as u128) < h.sat_den as u128 {
        let g: u8 = ((h.light_num + 1) / 2) as u8;
        proof {
            assert(round_div(h.light_num as int, 2) == (h.light_num + 1) / 2);
        }
        return (g, g, g);
    }
    let hn = h.hue_num;
    let hd = h.hue_den;
    let tr: u64 = if hn + 2 * hd < 6 * hd {
        hn + 2 * hd
    } else {
        hn + 2 * hd - 6 * hd
    };
    let tb: u64 = if hn + 4 * hd < 6 * hd {
        hn + 4 * hd
    } else {
        hn + 4 * hd - 6 * hd
    };
    (channel(h, tr), channel(h, hn), channel(h, tb))
}

} // verus!

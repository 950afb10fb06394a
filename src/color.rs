//! Conversion from hue/saturation/value to red/green/blue, and the two
//! perceptual corrections applied before the LED sees a color.
use vstd::prelude::*;

verus! {

/// A point of the hue/saturation/value cone, each component a byte.
/// The hue circle has 256 steps and wraps.
#[derive(Clone, Copy, Debug, PartialEq, Eq, Structural)]
pub struct Hsv {
    pub hue: u8,
    pub saturation: u8,
    pub value: u8,
}

/// Device-ready channel intensities.
#[derive(Clone, Copy, Debug, PartialEq, Eq, Structural)]
pub struct Rgb {
    pub red: u8,
    pub green: u8,
    pub blue: u8,
}

/// Full scale of one byte channel.
pub const FULL: u32 = 255;

/// Which of the six sectors of the hue circle `hue` falls in:
/// `floor(hue / 255 * 6) mod 6`.
pub open spec fn sector_of(hue: int) -> int {
    (6 * hue / 255) % 6
}

/// The position of `hue` inside its sector, in 255ths:
/// `(hue / 255 * 6 - sector) * 255`.
pub open spec fn fraction_of(hue: int) -> int {
    (6 * hue) % 255
}

/// `v * (1 - s)`, scaled to a byte and truncated.
pub open spec fn p_of(s: int, v: int) -> int {
    v * (255 - s) / 255
}

/// `v * (1 - s * f)`, scaled to a byte and truncated (`f` in 255ths).
pub open spec fn q_of(s: int, v: int, f: int) -> int {
    v * (65025 - s * f) / 65025
}

/// `v * (1 - s * (1 - f))`, scaled to a byte and truncated (`f` in 255ths).
pub open spec fn t_of(s: int, v: int, f: int) -> int {
    v * (65025 - s * (255 - f)) / 65025
}

/// The color that `c` stands for: achromatic when saturation is zero,
/// otherwise picked from `{v, p, q, t}` by the hue's sector.
pub open spec fn hsv_to_rgb(c: Hsv) -> (int, int, int) {
    let s = c.saturation as int;
    let v = c.value as int;
    if s == 0 {
        (v, v, v)
    } else {
        let f = fraction_of(c.hue as int);
        let p = p_of(s, v);
        let q = q_of(s, v, f);
        let t = t_of(s, v, f);
        let k = sector_of(c.hue as int);
        if k == 0 {
            (v, t, p)
        } else if k == 1 {
            (q, v, p)
        } else if k == 2 {
            (p, v, t)
        } else if k == 3 {
            (p, q, v)
        } else if k == 4 {
            (t, p, v)
        } else {
            (v, p, q)
        }
    }
}

/// The channels of `c` as integers.
pub open spec fn channels(c: Rgb) -> (int, int, int) {
    (c.red as int, c.green as int, c.blue as int)
}

proof fn lemma_scaled_down(v: int, x: int, d: int)
    requires
        0 <= v <= 255,
        0 <= x <= d,
        0 < d,
    ensures
        0 <= v * x / d <= v,
{
    assert(0 <= v * x <= v * d) by (nonlinear_arith)
        requires 0 <= v <= 255, 0 <= x <= d;
    assert(v * x / d <= v * d / d) by (nonlinear_arith)
        requires 0 <= v * x <= v * d, 0 < d;
    assert(v * d / d == v) by (nonlinear_arith)
        requires 0 < d;
}

/// Converts a hue/saturation/value triple to red/green/blue, truncating
/// each channel.
pub fn convert(hsv: Hsv) -> (r: Rgb)
    ensures
        channels(r) == hsv_to_rgb(hsv),
{
    let s = hsv.saturation as u32;
    let v = hsv.value as u32;
    if s == 0 {
        return Rgb { red: hsv.value, green: hsv.value, blue: hsv.value };
    }
    let h = hsv.hue as u32;
    let k = (6 * h / FULL) % 6;
    let f = (6 * h) % FULL;
    proof {
        assert(s * f <= 255 * 254) by (nonlinear_arith)
            requires s <= 255, f <= 254;
        assert(s * (255 - f) <= 255 * 255) by (nonlinear_arith)
            requires s <= 255, f <= 254;
        lemma_scaled_down(v as int, 255 - s, 255);
        lemma_scaled_down(v as int, 65025 - s * f, 65025);
        lemma_scaled_down(v as int, 65025 - s * (255 - f), 65025);
        assert(v * (255 - s) <= 255 * 255) by (nonlinear_arith)
            requires v <= 255, s <= 255;
        assert(v * (65025 - s * f) <= 255 * 65025) by (nonlinear_arith)
            requires 0 <= v <= 255, 0 <= s * f <= 65025;
        assert(v * (65025 - s * (255 - f)) <= 255 * 65025) by (nonlinear_arith)
            requires 0 <= v <= 255, 0 <= s * (255 - f) <= 65025;
    }
    let p = (v * (FULL - s) / FULL) as u8;
    let q = (v * (65025 - s * f) / 65025) as u8;
    let t = (v * (65025 - s * (FULL - f)) / 65025) as u8;
    let vv = hsv.value;
    if k == 0 {
        Rgb { red: vv, green: t, blue: p }
    } else if k == 1 {
        Rgb { red: q, green: vv, blue: p }
    } else if k == 2 {
        Rgb { red: p, green: vv, blue: t }
    } else if k == 3 {
        Rgb { red: p, green: q, blue: vv }
    } else if k == 4 {
        Rgb { red: t, green: p, blue: vv }
    } else {
        Rgb { red: vv, green: p, blue: q }
    }
}

/// Full-scale perceptual curve applied to one channel: `c * c / 255`
/// (a gamma of two), truncated.
pub open spec fn gamma_of(c: int) -> int {
    c * c / 255
}

/// One channel scaled by `factor / 255`, truncated.
pub open spec fn scaled(c: int, factor: int) -> int {
    c * factor / 255
}

/// Applies the perceptual curve to every channel.
pub fn gamma_correct(rgb: Rgb) -> (r: Rgb)
    ensures
        channels(r) == (gamma_of(rgb.red as int), gamma_of(rgb.green as int), gamma_of(
            rgb.blue as int,
        )),
{
    Rgb { red: gamma_channel(rgb.red), green: gamma_channel(rgb.green), blue: gamma_channel(rgb.blue) }
}

fn gamma_channel(c: u8) -> (r: u8)
    ensures
        r as int == gamma_of(c as int),
{
    let x = c as u32;
    proof {
        lemma_scaled_down(x as int, x as int, 255);
    }
    (x * x / FULL) as u8
}

/// Multiplies every channel by `factor / 255`, capping the LED's current draw.
pub fn brightness_scale(rgb: Rgb, factor: u8) -> (r: Rgb)
    ensures
        channels(r) == (scaled(rgb.red as int, factor as int), scaled(
            rgb.green as int,
            factor as int,
        ), scaled(rgb.blue as int, factor as int)),
{
    Rgb {
        red: scale_channel(rgb.red, factor),
        green: scale_channel(rgb.green, factor),
        blue: scale_channel(rgb.blue, factor),
    }
}

fn scale_channel(c: u8, factor: u8) -> (r: u8)
    ensures
        r as int == scaled(c as int, factor as int),
{
    let x = c as u32;
    let k = factor as u32;
    proof {
        lemma_scaled_down(x as int, k as int, 255);
        assert(x * k == k * x) by (nonlinear_arith);
        assert(x * k <= 255 * 255) by (nonlinear_arith)
            requires x <= 255, k <= 255;
    }
    (x * k / FULL) as u8
}

/// The fully saturated, full-value color of a hue, by sector, with `f` the
/// hue's position inside its sector in 255ths.
pub open spec fn saturated_table(k: int, f: int) -> (int, int, int) {
    if k == 0 {
        (255, f, 0)
    } else if k == 1 {
        (255 - f, 255, 0)
    } else if k == 2 {
        (0, 255, f)
    } else if k == 3 {
        (0, 255 - f, 255)
    } else if k == 4 {
        (f, 0, 255)
    } else {
        (255, 0, 255 - f)
    }
}

/// How many channels of `c` are at full scale.
pub open spec fn full_channels(c: (int, int, int)) -> int {
    (if c.0 == 255 { 1int } else { 0int }) + (if c.1 == 255 { 1int } else { 0int }) + (if c.2
        == 255 { 1int } else { 0int })
}

/// Every fully saturated, full-value hue converts to the sector table's
/// color: no channel leaves `0..=255` and exactly one channel is at 255.
pub proof fn lemma_saturated_has_one_full_channel(hue: u8)
    ensures
        hsv_to_rgb(Hsv { hue, saturation: 255, value: 255 }) == saturated_table(
            sector_of(hue as int),
            fraction_of(hue as int),
        ),
        full_channels(hsv_to_rgb(Hsv { hue, saturation: 255, value: 255 })) == 1,
        0 <= hsv_to_rgb(Hsv { hue, saturation: 255, value: 255 }).0 <= 255,
        0 <= hsv_to_rgb(Hsv { hue, saturation: 255, value: 255 }).1 <= 255,
        0 <= hsv_to_rgb(Hsv { hue, saturation: 255, value: 255 }).2 <= 255,
{
    let h = hue as int;
    let f = fraction_of(h);
    let k = sector_of(h);
    assert(0 <= f < 255);
    assert(0 <= k < 6);
    assert(p_of(255, 255) == 0);
    assert(255 * (65025 - 255 * f) == (255 - f) * 65025) by (nonlinear_arith);
    assert(q_of(255, 255, f) == 255 - f) by (nonlinear_arith)
        requires 255 * (65025 - 255 * f) == (255 - f) * 65025;
    assert(255 * (65025 - 255 * (255 - f)) == f * 65025) by (nonlinear_arith);
    assert(t_of(255, 255, f) == f) by (nonlinear_arith)
        requires 255 * (65025 - 255 * (255 - f)) == f * 65025;
    let hb = hue as u32;
    assert(((6 * hb) % 255 == 0) ==> ((6 * hb / 255) % 2 == 0)) by (bit_vector)
        requires hb <= 255;
    assert(6 * hb == 6 * h);
    assert(f == 0 ==> k % 2 == 0);
}

/// Zero saturation gives a grey: the three channels are equal, whatever
/// the hue.
pub proof fn lemma_unsaturated_is_grey(hue: u8, value: u8)
    ensures
        hsv_to_rgb(Hsv { hue, saturation: 0, value }).0 == hsv_to_rgb(
            Hsv { hue, saturation: 0, value },
        ).1,
        hsv_to_rgb(Hsv { hue, saturation: 0, value }).1 == hsv_to_rgb(
            Hsv { hue, saturation: 0, value },
        ).2,
        hsv_to_rgb(Hsv { hue, saturation: 0, value }).0 == value as int,
{
}

/// The conversion has no hidden state: equal inputs give equal colors.
pub proof fn lemma_convert_is_pure(a: Hsv, b: Hsv)
    requires
        a == b,
    ensures
        hsv_to_rgb(a) == hsv_to_rgb(b),
{
}

} // verus!

//! Canonical conversion between the RGB and HSV representations, computed in
//! exact integer arithmetic.
//!
//! The real-valued formulas put each channel in `[0, 1]` (by dividing by
//! 255) and hue in degrees. Here every intermediate stays rational and the
//! single final truncation is the quantization to the fixed-point scales:
//! hue in thousandths of a degree, the other channels in 255ths.

use vstd::prelude::*;
use vstd::arithmetic::div_mod::{
    lemma_div_by_self, lemma_div_is_ordered, lemma_div_pos_is_pos, lemma_fundamental_div_mod,
    lemma_fundamental_div_mod_converse_div, lemma_mod_bound, lemma_multiply_divide_le,
    lemma_multiply_divide_lt,
};

use crate::hsv::{valid_alpha_spec, valid_bounds_spec, Hsv};
use crate::rgb::Rgb;

verus! {

pub open spec fn max2(a: int, b: int) -> int {
    if a >= b {
        a
    } else {
        b
    }
}

pub open spec fn min2(a: int, b: int) -> int {
    if a <= b {
        a
    } else {
        b
    }
}

/// Hue of an RGB color in thousandths of a degree.
///
/// The 60°-sector formula: 0 when the color is achromatic (`delta == 0`),
/// otherwise `60 * ((g - b) / delta mod 6)` degrees when red is maximal,
/// `60 * ((b - r) / delta + 2)` when green is maximal, and
/// `60 * ((r - g) / delta + 4)` when blue is maximal. With red maximal and
/// `b > g` the sector term is negative, and the mod wraps it into
/// `[300°, 360°)`; division on `int` rounds down, so the negative branch is
/// exactly that Euclidean remainder.
pub open spec fn hue_scaled(r: int, g: int, b: int) -> int {
    let mx = max2(max2(r, g), b);
    let mn = min2(min2(r, g), b);
    let d = mx - mn;
    if d == 0 {
        0
    } else if mx == r {
        if g >= b {
            60000 * (g - b) / d
        } else {
            60000 * (g - b) / d + 360000
        }
    } else if mx == g {
        (60000 * (b - r) + 120000 * d) / d
    } else {
        (60000 * (r - g) + 240000 * d) / d
    }
}

/// Saturation of an RGB color in 255ths: `delta / max`, or 0 for black.
pub open spec fn sat_scaled(r: int, g: int, b: int) -> int {
    let mx = max2(max2(r, g), b);
    let mn = min2(min2(r, g), b);
    let d = mx - mn;
    if mx == 0 {
        0
    } else {
        255 * d / mx
    }
}

/// Value of an RGB color in 255ths: the maximal channel itself.
pub open spec fn val_scaled(r: int, g: int, b: int) -> int {
    max2(max2(r, g), b)
}

/// The HSV color corresponding to an RGB color; alpha carries over
/// unchanged, both being measured in 255ths.
pub open spec fn hsv_of_rgb(rgb: Rgb) -> Hsv {
    Hsv {
        h: hue_scaled(rgb.r as int, rgb.g as int, rgb.b as int) as i64,
        s: sat_scaled(rgb.r as int, rgb.g as int, rgb.b as int) as i64,
        v: val_scaled(rgb.r as int, rgb.g as int, rgb.b as int) as i64,
        a: rgb.a as i64,
    }
}

/// A quotient of nonnegative numerator by positive denominator lies between
/// 0 and any `c` with `numerator <= c * denominator`.
proof fn lemma_quotient_bounds(num: int, d: int, c: int)
    requires
        0 <= num,
        0 < d,
        num <= c * d,
    ensures
        0 <= num / d <= c,
{
    lemma_div_pos_is_pos(num, d);
    assert(c * d == d * c) by (nonlinear_arith);
    lemma_multiply_divide_le(num, d, c);
}

/// Convert an RGB color to its exact fixed-point HSV form.
///
/// Total on all inputs, and every result passes bounds validation: red-
/// maximal colors with `b > g` wrap into hues of `[300°, 360°)`.
pub fn hsv_from_rgb(rgb: &Rgb) -> (c: Hsv)
    ensures
        c == hsv_of_rgb(*rgb),
        valid_bounds_spec(c),
        valid_alpha_spec(c),
        0 <= c.h < 360000,
{
    let r = rgb.r as u64;
    let g = rgb.g as u64;
    let b = rgb.b as u64;
    let mx = if r >= g {
        r
    } else {
        g
    };
    let mx = if mx >= b {
        mx
    } else {
        b
    };
    let mn = if r <= g {
        r
    } else {
        g
    };
    let mn = if mn <= b {
        mn
    } else {
        b
    };
    let d = mx - mn;
    let h: i64 = if d == 0 {
        0
    } else if mx == r {
        if g >= b {
            proof {
                lemma_quotient_bounds(60000 * (g - b), d as int, 60000);
            }
            ((60000 * (g - b)) / d) as i64
        } else {
            // The sector term is negative here; wrapping by one turn means
            // rounding its magnitude's quotient up, hence the `+ d - 1`.
            let num = 60000 * (b - g);
            proof {
                let q = ((num + d - 1) as int) / (d as int);
                let rem = ((num + d - 1) as int) % (d as int);
                lemma_div_pos_is_pos((num + d - 1) as int, d as int);
                lemma_multiply_divide_lt((num + d - 1) as int, d as int, 60001);
                lemma_div_by_self(d as int);
                lemma_div_is_ordered(d as int, (num + d - 1) as int, d as int);
                lemma_fundamental_div_mod((num + d - 1) as int, d as int);
                lemma_mod_bound((num + d - 1) as int, d as int);
                assert((-q) * (d as int) == -((d as int) * q)) by (nonlinear_arith);
                lemma_fundamental_div_mod_converse_div(
                    -(num as int),
                    d as int,
                    -q,
                    (d as int) - 1 - rem,
                );
            }
            360000 - (((num + d - 1) / d) as i64)
        }
    } else if mx == g {
        proof {
            lemma_quotient_bounds(120000 * d + 60000 * b - 60000 * r, d as int, 180000);
        }
        ((120000 * d + 60000 * b - 60000 * r) / d) as i64
    } else {
        proof {
            lemma_quotient_bounds(240000 * d + 60000 * r - 60000 * g, d as int, 300000);
        }
        ((240000 * d + 60000 * r - 60000 * g) / d) as i64
    };
    let s: i64 = if mx == 0 {
        0
    } else {
        proof {
            lemma_quotient_bounds(255 * d, mx as int, 255);
        }
        ((255 * d) / mx) as i64
    };
    Hsv { h, s, v: mx as i64, a: rgb.a as i64 }
}

/// `1 - |((h / 60°) mod 2) - 1|`, scaled so that both hue and the result
/// are in thousandths: the triangular wave that shapes the secondary
/// channel, in `[0, 60000]`.
pub open spec fn hue_wave(h: int) -> int {
    let rem = h % 120000;
    if rem <= 60000 {
        rem
    } else {
        120000 - rem
    }
}

/// The secondary channel `x + m` of the sector decomposition, scaled to
/// 255ths and truncated: with `c = v * s` and `m = v - c` (channels as reals
/// in `[0, 1]`), this is `(x + m) * 255` computed exactly.
pub open spec fn sector_mid(s: int, v: int, w: int) -> int {
    v * (s * w + (255 - s) * 60000) / 15300000
}

/// The minimal channel `0 + m` of the sector decomposition, scaled to
/// 255ths and truncated: `m * 255 = v * (255 - s) / 255` computed exactly.
pub open spec fn sector_low(s: int, v: int) -> int {
    v * (255 - s) / 255
}

/// The RGB color corresponding to an HSV color: the standard sector
/// decomposition. The maximal channel is exactly `v`; alpha carries over
/// unchanged.
pub open spec fn rgb_of_hsv(hsv: Hsv) -> Rgb {
    let h = hsv.h as int;
    let s = hsv.s as int;
    let v = hsv.v as int;
    let w = hue_wave(h);
    let hi = v;
    let mid = sector_mid(s, v, w);
    let lo = sector_low(s, v);
    if h < 60000 {
        Rgb { r: hi as u8, g: mid as u8, b: lo as u8, a: hsv.a as u8 }
    } else if h < 120000 {
        Rgb { r: mid as u8, g: hi as u8, b: lo as u8, a: hsv.a as u8 }
    } else if h < 180000 {
        Rgb { r: lo as u8, g: hi as u8, b: mid as u8, a: hsv.a as u8 }
    } else if h < 240000 {
        Rgb { r: lo as u8, g: mid as u8, b: hi as u8, a: hsv.a as u8 }
    } else if h < 300000 {
        Rgb { r: mid as u8, g: lo as u8, b: hi as u8, a: hsv.a as u8 }
    } else {
        Rgb { r: hi as u8, g: lo as u8, b: mid as u8, a: hsv.a as u8 }
    }
}

/// Convert a bounds-valid HSV color to its exact fixed-point RGB form.
pub fn rgb_from_hsv(hsv: &Hsv) -> (c: Rgb)
    requires
        valid_bounds_spec(*hsv),
        valid_alpha_spec(*hsv),
    ensures
        c == rgb_of_hsv(*hsv),
{
    let h = hsv.h as u64;
    let s = hsv.s as u64;
    let v = hsv.v as u64;
    let rem = h % 120000;
    let w = if rem <= 60000 {
        rem
    } else {
        120000 - rem
    };
    assert(w == hue_wave(hsv.h as int));
    let hi = v;
    proof {
        assert(s * w + (255 - s) * 60000 <= 255 * 60000) by (nonlinear_arith)
            requires
                0 <= s <= 255,
                0 <= w <= 60000,
        ;
        assert(v * (s * w + (255 - s) * 60000) <= v * (255 * 60000)) by (nonlinear_arith)
            requires
                0 <= v,
                0 <= s * w + (255 - s) * 60000 <= 255 * 60000,
        ;
        assert(0 <= v * (s * w + (255 - s) * 60000)) by (nonlinear_arith)
            requires
                0 <= v,
                0 <= s * w + (255 - s) * 60000,
        ;
        lemma_quotient_bounds(
            (v * (s * w + (255 - s) * 60000)) as int,
            15300000,
            v as int,
        );
        assert(v * (255 * 60000) == v * 15300000);
        assert(0 <= v * (255 - s) <= v * 255) by (nonlinear_arith)
            requires
                0 <= v,
                0 <= s <= 255,
        ;
        lemma_quotient_bounds((v * (255 - s)) as int, 255, v as int);
    }
    let mid = (v * (s * w + (255 - s) * 60000)) / 15300000;
    let lo = (v * (255 - s)) / 255;
    let (r, g, b): (u64, u64, u64) = if h < 60000 {
        (hi, mid, lo)
    } else if h < 120000 {
        (mid, hi, lo)
    } else if h < 180000 {
        (lo, hi, mid)
    } else if h < 240000 {
        (lo, mid, hi)
    } else {
        if h < 300000 {
            (mid, lo, hi)
        } else {
            (hi, lo, mid)
        }
    };
    Rgb { r: r as u8, g: g as u8, b: b as u8, a: hsv.a as u8 }
}

} // verus!

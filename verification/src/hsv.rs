//! The HSV color representation in exact fixed point, with bounds validation
//! and per-channel tolerance comparison.
//!
//! Hue is measured in thousandths of a degree (`0 ..= 360_000` for a hue of
//! 0° to 360°); saturation, value and alpha are measured in 255ths, so `255`
//! stands for 1.0, the same quantization as an 8-bit RGB channel.

use vstd::prelude::*;

use crate::rgb::{chan_diff, rgb_compare_spec, Rgb};
use crate::conversion::{hsv_from_rgb, hsv_of_rgb, rgb_from_hsv, rgb_of_hsv};

verus! {

/// Hue of 360°, in thousandths of a degree.
pub const HUE_FULL_TURN: i64 = 360000;

/// Full scale (1.0) for saturation, value and alpha.
pub const UNIT_FULL_SCALE: i64 = 255;

/// An HSVA color. `h` is in thousandths of a degree; `s`, `v` and `a` are in
/// 255ths of full scale.
#[derive(Debug, PartialEq, Eq, Structural, Clone, Copy)]
pub struct Hsv {
    pub h: i64,
    pub s: i64,
    pub v: i64,
    pub a: i64,
}

/// The channel that failed bounds validation, together with its valid range.
#[derive(Debug, PartialEq, Eq, Structural, Clone, Copy)]
pub enum ChannelError {
    Hue,
    Saturation,
    Value,
}

impl ChannelError {
    /// A human-readable description of the failed bound.
    pub fn message(&self) -> (r: &'static str)
        ensures
            *self == ChannelError::Hue ==> r@ == "Hue is not between 0 and 360000 thousandths of a degree"@,
            *self == ChannelError::Saturation ==> r@ == "Saturation is not between 0 and 255"@,
            *self == ChannelError::Value ==> r@ == "Value is not between 0 and 255"@,
    {
        match self {
            ChannelError::Hue => "Hue is not between 0 and 360000 thousandths of a degree",
            ChannelError::Saturation => "Saturation is not between 0 and 255",
            ChannelError::Value => "Value is not between 0 and 255",
        }
    }
}

/// The bounds that `valid_bounds` enforces: hue within one turn, saturation
/// and value within full scale. Alpha is deliberately not validated,
/// mirroring construction, which only checks `h`, `s` and `v`.
pub open spec fn valid_bounds_spec(c: Hsv) -> bool {
    &&& 0 <= c.h <= HUE_FULL_TURN
    &&& 0 <= c.s <= UNIT_FULL_SCALE
    &&& 0 <= c.v <= UNIT_FULL_SCALE
}

/// Alpha within full scale; required when converting to RGB.
pub open spec fn valid_alpha_spec(c: Hsv) -> bool {
    0 <= c.a <= UNIT_FULL_SCALE
}

/// The exact result of `valid_bounds`: the first out-of-range channel, in
/// the order hue, saturation, value.
pub open spec fn valid_bounds_result(c: Hsv) -> Result<(), ChannelError> {
    if c.h < 0 || c.h > HUE_FULL_TURN {
        Err(ChannelError::Hue)
    } else if c.s < 0 || c.s > UNIT_FULL_SCALE {
        Err(ChannelError::Saturation)
    } else if c.v < 0 || c.v > UNIT_FULL_SCALE {
        Err(ChannelError::Value)
    } else {
        Ok(())
    }
}

/// Tolerance-bounded equality: every channel's absolute difference is within
/// the corresponding tolerance channel.
pub open spec fn hsv_compare_spec(x: Hsv, y: Hsv, tolerance: Hsv) -> bool {
    &&& chan_diff(x.h as int, y.h as int) <= tolerance.h
    &&& chan_diff(x.s as int, y.s as int) <= tolerance.s
    &&& chan_diff(x.v as int, y.v as int) <= tolerance.v
    &&& chan_diff(x.a as int, y.a as int) <= tolerance.a
}

/// The per-channel absolute difference of two HSV colors.
pub open spec fn hsv_diff_spec(x: Hsv, y: Hsv) -> Hsv {
    Hsv {
        h: chan_diff(x.h as int, y.h as int) as i64,
        s: chan_diff(x.s as int, y.s as int) as i64,
        v: chan_diff(x.v as int, y.v as int) as i64,
        a: chan_diff(x.a as int, y.a as int) as i64,
    }
}

/// The absolute difference of two channel values, widened so that no
/// intermediate overflows.
fn wide_diff(a: i64, b: i64) -> (r: i128)
    ensures
        r == chan_diff(a as int, b as int),
{
    let wa = a as i128;
    let wb = b as i128;
    if wa >= wb {
        wa - wb
    } else {
        wb - wa
    }
}

impl Hsv {
    /// A fully opaque HSV color. Rejected (by precondition) when a channel is
    /// out of bounds.
    pub fn new(h: i64, s: i64, v: i64) -> (c: Self)
        requires
            valid_bounds_spec(Hsv { h, s, v, a: UNIT_FULL_SCALE as i64 }),
        ensures
            c == (Hsv { h, s, v, a: UNIT_FULL_SCALE as i64 }),
    {
        Hsv { h, s, v, a: UNIT_FULL_SCALE }
    }

    /// An HSV color with an explicit alpha. As with construction without
    /// alpha, only `h`, `s` and `v` are bounds-checked.
    pub fn new_with_alpha(h: i64, s: i64, v: i64, a: i64) -> (c: Self)
        requires
            valid_bounds_spec(Hsv { h, s, v, a }),
        ensures
            c == (Hsv { h, s, v, a }),
    {
        Hsv { h, s, v, a }
    }

    /// Validate channel bounds, reporting the first channel out of range.
    pub fn valid_bounds(values: &Hsv) -> (r: Result<(), ChannelError>)
        ensures
            r == valid_bounds_result(*values),
            r is Ok <==> valid_bounds_spec(*values),
    {
        if values.h < 0 || values.h > HUE_FULL_TURN {
            return Err(ChannelError::Hue);
        }
        if values.s < 0 || values.s > UNIT_FULL_SCALE {
            return Err(ChannelError::Saturation);
        }
        if values.v < 0 || values.v > UNIT_FULL_SCALE {
            return Err(ChannelError::Value);
        }
        Ok(())
    }

    /// Assert that the channels are within bounds. Out-of-range values are
    /// excluded up front by precondition, so the assertion always passes;
    /// callers that cannot promise validity use `valid_bounds` instead.
    pub fn assert_valid_bounds(values: &Hsv)
        requires
            valid_bounds_spec(*values),
    {
        let valid = Hsv::valid_bounds(values);
        assert(valid.is_ok());
    }

    /// The per-channel absolute difference with `other`.
    pub fn diff(&self, other: &Hsv) -> (d: Hsv)
        requires
            chan_diff(self.h as int, other.h as int) <= i64::MAX,
            chan_diff(self.s as int, other.s as int) <= i64::MAX,
            chan_diff(self.v as int, other.v as int) <= i64::MAX,
            chan_diff(self.a as int, other.a as int) <= i64::MAX,
        ensures
            d == hsv_diff_spec(*self, *other),
    {
        Hsv {
            h: wide_diff(self.h, other.h) as i64,
            s: wide_diff(self.s, other.s) as i64,
            v: wide_diff(self.v, other.v) as i64,
            a: wide_diff(self.a, other.a) as i64,
        }
    }

    /// True iff every channel of `self` differs from `other` by at most the
    /// corresponding channel of `tolerance`.
    pub fn compare(&self, other: &Hsv, tolerance: Hsv) -> (ok: bool)
        ensures
            ok == hsv_compare_spec(*self, *other, tolerance),
    {
        wide_diff(self.h, other.h) <= tolerance.h as i128
            && wide_diff(self.s, other.s) <= tolerance.s as i128
            && wide_diff(self.v, other.v) <= tolerance.v as i128
            && wide_diff(self.a, other.a) <= tolerance.a as i128
    }

    /// Compare against an RGB color by first converting it to HSV.
    pub fn compare_from_rgb(&self, other: &Rgb, tolerance: Hsv) -> (ok: bool)
        ensures
            ok == hsv_compare_spec(*self, hsv_of_rgb(*other), tolerance),
    {
        let converted = hsv_from_rgb(other);
        self.compare(&converted, tolerance)
    }

    /// Compare against an RGB color in RGB space, converting `self` first.
    pub fn compare_to_rgb(&self, other: &Rgb, tolerance: Rgb) -> (ok: bool)
        requires
            valid_bounds_spec(*self),
            valid_alpha_spec(*self),
        ensures
            ok == rgb_compare_spec(rgb_of_hsv(*self), *other, tolerance),
    {
        let rgb = rgb_from_hsv(self);
        rgb.compare(other, tolerance)
    }
}

} // verus!

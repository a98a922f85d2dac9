//! The RGB color representation: four 8-bit channels, with per-channel
//! tolerance comparison.

use vstd::prelude::*;

use crate::hsv::{valid_alpha_spec, valid_bounds_spec, Hsv};
use crate::conversion::{hsv_from_rgb, hsv_of_rgb, rgb_from_hsv, rgb_of_hsv};

verus! {

/// The absolute difference of two channel values.
pub open spec fn chan_diff(a: int, b: int) -> int {
    if a >= b {
        a - b
    } else {
        b - a
    }
}

/// An RGBA color with 8-bit channels; `a` is opacity (255 = opaque).
#[derive(Debug, PartialEq, Eq, Structural, Clone, Copy, Hash)]
pub struct Rgb {
    pub r: u8,
    pub g: u8,
    pub b: u8,
    pub a: u8,
}

/// The per-channel absolute difference of two RGB colors.
pub open spec fn rgb_diff_spec(x: Rgb, y: Rgb) -> Rgb {
    Rgb {
        r: chan_diff(x.r as int, y.r as int) as u8,
        g: chan_diff(x.g as int, y.g as int) as u8,
        b: chan_diff(x.b as int, y.b as int) as u8,
        a: chan_diff(x.a as int, y.a as int) as u8,
    }
}

/// Tolerance-bounded equality: every channel of the difference is within the
/// corresponding tolerance channel.
pub open spec fn rgb_compare_spec(x: Rgb, y: Rgb, tolerance: Rgb) -> bool {
    &&& chan_diff(x.r as int, y.r as int) <= tolerance.r
    &&& chan_diff(x.g as int, y.g as int) <= tolerance.g
    &&& chan_diff(x.b as int, y.b as int) <= tolerance.b
    &&& chan_diff(x.a as int, y.a as int) <= tolerance.a
}

impl Rgb {
    /// A fully opaque color from the three color channels.
    pub fn new(r: u8, g: u8, b: u8) -> (c: Self)
        ensures
            c == (Rgb { r, g, b, a: 255u8 }),
    {
        Self { r, g, b, a: 255 }
    }

    pub fn new_with_alpha(r: u8, g: u8, b: u8, a: u8) -> (c: Self)
        ensures
            c == (Rgb { r, g, b, a }),
    {
        Self { r, g, b, a }
    }

    /// The per-channel absolute difference with `other`.
    pub fn diff(&self, other: &Rgb) -> (d: Rgb)
        ensures
            d == rgb_diff_spec(*self, *other),
    {
        Rgb {
            r: if self.r >= other.r {
                self.r - other.r
            } else {
                other.r - self.r
            },
            g: if self.g >= other.g {
                self.g - other.g
            } else {
                other.g - self.g
            },
            b: if self.b >= other.b {
                self.b - other.b
            } else {
                other.b - self.b
            },
            a: if self.a >= other.a {
                self.a - other.a
            } else {
                other.a - self.a
            },
        }
    }

    /// True iff every channel of `self` differs from `other` by at most the
    /// corresponding channel of `tolerance`.
    pub fn compare(&self, other: &Rgb, tolerance: Rgb) -> (ok: bool)
        ensures
            ok == rgb_compare_spec(*self, *other, tolerance),
    {
        let diff = self.diff(other);
        diff.r <= tolerance.r && diff.g <= tolerance.g && diff.b <= tolerance.b
            && diff.a <= tolerance.a
    }

    /// Compare against an HSV color by first converting it to RGB, with an
    /// RGB tolerance.
    pub fn compare_from_hsv(&self, other: &Hsv, tolerance: Rgb) -> (ok: bool)
        requires
            valid_bounds_spec(*other),
            valid_alpha_spec(*other),
        ensures
            ok == rgb_compare_spec(*self, rgb_of_hsv(*other), tolerance),
    {
        let converted = rgb_from_hsv(other);
        let diff = self.diff(&converted);
        diff.r <= tolerance.r && diff.g <= tolerance.g && diff.b <= tolerance.b
            && diff.a <= tolerance.a
    }

    /// Compare against an HSV color in HSV space, converting `self` first.
    pub fn compare_to_hsv(&self, other: &Hsv, tolerance: Hsv) -> (ok: bool)
        ensures
            ok == crate::hsv::hsv_compare_spec(hsv_of_rgb(*self), *other, tolerance),
    {
        let hsv = hsv_from_rgb(self);
        hsv.compare(other, tolerance)
    }
}

impl From<[u8; 3]> for Rgb {
    /// The three color channels, fully opaque.
    fn from(rgb: [u8; 3]) -> (c: Rgb) {
        Rgb { r: rgb[0], g: rgb[1], b: rgb[2], a: 255 }
    }
}

impl vstd::std_specs::convert::FromSpecImpl<[u8; 3]> for Rgb {
    open spec fn obeys_from_spec() -> bool {
        true
    }

    open spec fn from_spec(rgb: [u8; 3]) -> Rgb {
        Rgb { r: rgb[0], g: rgb[1], b: rgb[2], a: 255u8 }
    }
}

impl From<[u8; 4]> for Rgb {
    /// The four channels in RGBA order.
    fn from(rgba: [u8; 4]) -> (c: Rgb) {
        Rgb { r: rgba[0], g: rgba[1], b: rgba[2], a: rgba[3] }
    }
}

impl vstd::std_specs::convert::FromSpecImpl<[u8; 4]> for Rgb {
    open spec fn obeys_from_spec() -> bool {
        true
    }

    open spec fn from_spec(rgba: [u8; 4]) -> Rgb {
        Rgb { r: rgba[0], g: rgba[1], b: rgba[2], a: rgba[3] }
    }
}

} // verus!

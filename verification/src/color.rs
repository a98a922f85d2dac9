//! A color value carrying both representations plus a per-instance HSV
//! tolerance, kept synchronized by the canonical conversion.

use vstd::prelude::*;

use crate::conversion::{hsv_from_rgb, hsv_of_rgb, rgb_from_hsv, rgb_of_hsv};
use crate::hsv::{hsv_compare_spec, valid_alpha_spec, valid_bounds_spec, Hsv};
use crate::rgb::Rgb;

verus! {

/// A color with both an RGB and an HSV representation and the tolerance, in
/// HSV units, that this instance uses when comparing itself to others.
#[derive(Debug, Clone, PartialEq, Eq, Structural)]
pub struct Color {
    pub hsv: Hsv,
    pub rgb: Rgb,
    pub tolerance: Hsv,
}

/// The default tolerance: zero on hue, saturation and value, full scale on
/// alpha. Under it, colors compare equal exactly when their h, s and v
/// coincide, whatever their opacity.
pub open spec fn default_tolerance() -> Hsv {
    Hsv { h: 0, s: 0, v: 0, a: 255 }
}

/// The color derived from an RGB value: HSV by the canonical conversion,
/// the default (alpha-insensitive) tolerance.
pub open spec fn color_of_rgb(rgb: Rgb) -> Color {
    Color { hsv: hsv_of_rgb(rgb), rgb, tolerance: default_tolerance() }
}

/// What `a.compare(&b)` decides: HSV comparison under the owner's (`a`'s)
/// tolerance. Asymmetric by design when tolerances differ.
pub open spec fn color_compare_spec(a: Color, b: Color) -> bool {
    hsv_compare_spec(a.hsv, b.hsv, a.tolerance)
}

impl Color {
    /// Tolerance-bounded comparison in HSV space, using `self`'s tolerance.
    /// Not symmetric: `a.compare(&b)` and `b.compare(&a)` may differ when
    /// their tolerances do.
    pub fn compare(&self, color: &Color) -> (ok: bool)
        ensures
            ok == color_compare_spec(*self, *color),
    {
        self.hsv.compare(&color.hsv, self.tolerance)
    }

    /// The color derived from a bounds-valid HSV value: RGB by the canonical
    /// conversion, the default (alpha-insensitive) tolerance.
    pub fn from_hsv(hsv: Hsv) -> (c: Color)
        requires
            valid_bounds_spec(hsv),
            valid_alpha_spec(hsv),
        ensures
            c == (Color { hsv, rgb: rgb_of_hsv(hsv), tolerance: default_tolerance() }),
    {
        let rgb = rgb_from_hsv(&hsv);
        Color { hsv, rgb, tolerance: Hsv { h: 0, s: 0, v: 0, a: 255 } }
    }
}

impl From<Rgb> for Color {
    /// Derive the HSV side from the RGB value; the tolerance starts at the
    /// default.
    fn from(rgb: Rgb) -> (c: Color) {
        let hsv = hsv_from_rgb(&rgb);
        Color { hsv, rgb, tolerance: Hsv { h: 0, s: 0, v: 0, a: 255 } }
    }
}

impl vstd::std_specs::convert::FromSpecImpl<Rgb> for Color {
    open spec fn obeys_from_spec() -> bool {
        true
    }

    open spec fn from_spec(rgb: Rgb) -> Color {
        color_of_rgb(rgb)
    }
}

impl From<(Hsv, Hsv)> for Color {
    /// An HSV value paired with a tolerance. The RGB side is left black
    /// rather than derived.
    fn from(pair: (Hsv, Hsv)) -> (c: Color) {
        Color { hsv: pair.0, rgb: Rgb { r: 0, g: 0, b: 0, a: 255 }, tolerance: pair.1 }
    }
}

impl vstd::std_specs::convert::FromSpecImpl<(Hsv, Hsv)> for Color {
    open spec fn obeys_from_spec() -> bool {
        true
    }

    open spec fn from_spec(pair: (Hsv, Hsv)) -> Color {
        Color {
            hsv: pair.0,
            rgb: Rgb { r: 0, g: 0, b: 0, a: 255 },
            tolerance: pair.1,
        }
    }
}

impl From<(Rgb, Hsv)> for Color {
    /// An RGB value paired with a tolerance; the HSV side is derived by the
    /// canonical conversion.
    fn from(pair: (Rgb, Hsv)) -> (c: Color) {
        let hsv = hsv_from_rgb(&pair.0);
        Color { hsv, rgb: pair.0, tolerance: pair.1 }
    }
}

impl vstd::std_specs::convert::FromSpecImpl<(Rgb, Hsv)> for Color {
    open spec fn obeys_from_spec() -> bool {
        true
    }

    open spec fn from_spec(pair: (Rgb, Hsv)) -> Color {
        Color { hsv: hsv_of_rgb(pair.0), rgb: pair.0, tolerance: pair.1 }
    }
}

impl From<Rgb> for Hsv {
    /// The canonical RGB-to-HSV conversion.
    fn from(rgb: Rgb) -> (c: Hsv) {
        hsv_from_rgb(&rgb)
    }
}

impl vstd::std_specs::convert::FromSpecImpl<Rgb> for Hsv {
    open spec fn obeys_from_spec() -> bool {
        true
    }

    open spec fn from_spec(rgb: Rgb) -> Hsv {
        hsv_of_rgb(rgb)
    }
}

} // verus!

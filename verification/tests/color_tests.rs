//! Hue is in thousandths of a degree; saturation, value and alpha are in
//! 255ths, so 255 stands for 1.0.

use image_analyzer::color::Color;
use image_analyzer::conversion::rgb_from_hsv;
use image_analyzer::hsv::{ChannelError, Hsv};
use image_analyzer::rgb::Rgb;

#[test]
fn test_rgb_diff() {
    let rgb1 = Rgb { r: 255, g: 0, b: 0, a: 255 };
    let rgb2 = Rgb { r: 0, g: 255, b: 0, a: 255 };
    let diff = Rgb { r: 255, g: 255, b: 0, a: 0 };
    assert_eq!(diff, rgb1.diff(&rgb2));
}

#[test]
fn test_rgb_compare() {
    let rgb1 = Rgb { r: 255, g: 0, b: 0, a: 255 };
    let rgb2 = Rgb { r: 0, g: 255, b: 0, a: 255 };
    let tolerance = Rgb { r: 255, g: 255, b: 0, a: 0 };
    assert!(rgb1.compare(&rgb2, tolerance));
}

#[test]
fn test_rgb_compare_zero_tolerance() {
    let rgb1 = Rgb { r: 255, g: 0, b: 0, a: 255 };
    let rgb2 = Rgb { r: 0, g: 255, b: 0, a: 255 };
    let tolerance = Rgb { r: 0, g: 0, b: 0, a: 0 };
    assert!(!rgb1.compare(&rgb2, tolerance));
    assert!(rgb1.compare(&rgb1, tolerance));
}

#[test]
fn test_hsv_diff() {
    let hsv1 = Hsv { h: 0, s: 255, v: 255, a: 255 };
    let hsv2 = Hsv { h: 120000, s: 255, v: 255, a: 255 };
    let diff = Rgb { r: 255, g: 255, b: 0, a: 0 };
    assert_eq!(diff, rgb_from_hsv(&hsv1).diff(&rgb_from_hsv(&hsv2)));
}

#[test]
fn test_hsv_compare() {
    let hsv1 = Hsv { h: 0, s: 255, v: 255, a: 255 };
    let hsv2 = Hsv { h: 120000, s: 255, v: 255, a: 255 };
    let tolerance = Hsv { h: 180000, s: 255, v: 255, a: 0 };
    assert!(hsv1.compare(&hsv2, tolerance));
}

#[test]
fn test_hsv_compare_exceeding_hue_tolerance() {
    let hsv1 = Hsv { h: 0, s: 255, v: 255, a: 255 };
    let hsv2 = Hsv { h: 120000, s: 255, v: 255, a: 255 };
    let tolerance = Hsv { h: 60000, s: 255, v: 255, a: 0 };
    assert!(!hsv1.compare(&hsv2, tolerance));
}

#[test]
fn test_rgb_compare_from_hsv() {
    let rgb1 = Rgb { r: 255, g: 0, b: 0, a: 255 };
    let hsv2 = Hsv { h: 120000, s: 255, v: 255, a: 255 };
    let tolerance = Rgb { r: 255, g: 255, b: 0, a: 0 };
    assert!(rgb1.compare_from_hsv(&hsv2, tolerance));
}

#[test]
fn test_hsv_compare_to_rgb() {
    let hsv1 = Hsv { h: 0, s: 255, v: 255, a: 255 };
    let rgb2 = Rgb { r: 255, g: 0, b: 0, a: 255 };
    let tolerance = Rgb { r: 255, g: 255, b: 0, a: 0 };
    assert!(hsv1.compare_to_rgb(&rgb2, tolerance));
}

#[test]
fn test_valid_bounds() {
    // Valid corners and a mid-range value.
    assert!(Hsv::valid_bounds(&Hsv::new_with_alpha(0, 0, 0, 255)).is_ok());
    assert!(Hsv::valid_bounds(&Hsv::new_with_alpha(360000, 255, 255, 255)).is_ok());
    assert!(Hsv::valid_bounds(&Hsv::new_with_alpha(180000, 128, 128, 255)).is_ok());
}

#[test]
fn test_invalid_bounds_by_channel() {
    assert_eq!(
        Hsv::valid_bounds(&Hsv { h: -1, s: 0, v: 0, a: 255 }),
        Err(ChannelError::Hue)
    );
    assert_eq!(
        Hsv::valid_bounds(&Hsv { h: 361000, s: 0, v: 0, a: 255 }),
        Err(ChannelError::Hue)
    );
    assert_eq!(
        Hsv::valid_bounds(&Hsv { h: 0, s: -1, v: 0, a: 255 }),
        Err(ChannelError::Saturation)
    );
    assert_eq!(
        Hsv::valid_bounds(&Hsv { h: 0, s: 256, v: 0, a: 255 }),
        Err(ChannelError::Saturation)
    );
    assert_eq!(
        Hsv::valid_bounds(&Hsv { h: 0, s: 0, v: -1, a: 255 }),
        Err(ChannelError::Value)
    );
    assert_eq!(
        Hsv::valid_bounds(&Hsv { h: 0, s: 0, v: 256, a: 255 }),
        Err(ChannelError::Value)
    );
}

#[test]
fn test_channel_error_messages() {
    assert_eq!(
        ChannelError::Hue.message(),
        "Hue is not between 0 and 360000 thousandths of a degree"
    );
    assert_eq!(ChannelError::Saturation.message(), "Saturation is not between 0 and 255");
    assert_eq!(ChannelError::Value.message(), "Value is not between 0 and 255");
}

#[test]
fn test_color_compare_uses_owner_tolerance() {
    let lenient = Color::from((Hsv { h: 0, s: 255, v: 255, a: 255 }, Hsv {
        h: 180000,
        s: 255,
        v: 255,
        a: 255,
    }));
    let strict = Color::from((Hsv { h: 120000, s: 255, v: 255, a: 255 }, Hsv {
        h: 0,
        s: 0,
        v: 0,
        a: 0,
    }));
    // The owner's tolerance decides, so the comparison is asymmetric.
    assert!(lenient.compare(&strict));
    assert!(!strict.compare(&lenient));
}

#[test]
fn test_default_tolerance_ignores_alpha() {
    // A color built from an RGB value carries zero tolerance on hue,
    // saturation and value, but full-scale tolerance on alpha: matching is
    // alpha-insensitive by default.
    let opaque = Color::from(Rgb::new(255, 0, 0));
    let translucent = Color::from(Rgb::new_with_alpha(255, 0, 0, 10));
    assert!(opaque.compare(&translucent));
    assert!(translucent.compare(&opaque));
    let shifted = Color::from(Rgb::new(254, 0, 0));
    assert!(!opaque.compare(&shifted));
}

#[test]
fn test_from_rgb_array() {
    let rgb = Rgb { r: 255, g: 0, b: 0, a: 255 };
    assert_eq!(rgb, Rgb::from([255, 0, 0]));
    assert_eq!(rgb, Rgb::from([255, 0, 0, 255]));
    let translucent = Rgb { r: 1, g: 2, b: 3, a: 4 };
    assert_eq!(translucent, Rgb::from([1, 2, 3, 4]));
}

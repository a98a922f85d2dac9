//! Raster-image color matching primitives: an exact fixed-point color model
//! (RGB and HSV with tolerance-bounded comparison), a scanning engine that
//! walks a rectangular region of an image with early-exit control signals,
//! and an axis-aligned zone geometry engine with containment, merge and
//! deduplication.

pub mod better_call_zone;
pub mod color;
pub mod conversion;
pub mod hsv;
pub mod image_analyzer;
pub mod image_source;
pub mod pixel;
pub mod point;
pub mod rgb;

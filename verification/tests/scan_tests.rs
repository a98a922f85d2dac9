use image_analyzer::color::Color;
use image_analyzer::image_analyzer::{
    Axis, ImageAnalyzer, ImageZone, LoopResult, ScanHandler, ZoneError,
};
use image_analyzer::image_source::RgbaBuffer;
use image_analyzer::point::Point;
use image_analyzer::rgb::Rgb;

/// A 2 by 2 image: red, green / blue, red.
fn sample_image() -> RgbaBuffer {
    let data = vec![
        255, 0, 0, 255, // (0, 0) red
        0, 255, 0, 255, // (1, 0) green
        0, 0, 255, 255, // (0, 1) blue
        255, 0, 0, 255, // (1, 1) red
    ];
    RgbaBuffer::from_raw(2, 2, data).expect("buffer is large enough")
}

struct Recorder {
    visited: Vec<Point>,
    answer: Option<LoopResult>,
}

impl ScanHandler for Recorder {
    fn on_pixel(&mut self, _color: Color, point: Point) -> Option<LoopResult> {
        self.visited.push(point);
        self.answer
    }
}

#[test]
fn test_from_raw_rejects_short_buffer() {
    assert!(RgbaBuffer::from_raw(2, 2, vec![0; 15]).is_none());
    assert!(RgbaBuffer::from_raw(2, 2, vec![0; 16]).is_some());
}

#[test]
fn test_process_image_row_major_order() {
    let analyzer = ImageAnalyzer::new(sample_image());
    let mut handler = Recorder { visited: Vec::new(), answer: None };
    let result = analyzer.process_image(ImageZone::Full, &mut handler);
    assert!(result.is_ok());
    assert_eq!(handler.visited, vec![
        Point::new(0, 0),
        Point::new(1, 0),
        Point::new(0, 1),
        Point::new(1, 1)
    ]);
}

#[test]
fn test_process_image_break_row_halts_scan() {
    let analyzer = ImageAnalyzer::new(sample_image());
    let mut handler = Recorder { visited: Vec::new(), answer: Some(LoopResult::Break(Axis::Y)) };
    let result = analyzer.process_image(ImageZone::Full, &mut handler);
    assert!(result.is_ok());
    // The counting collaborator saw exactly one pixel: no later pixel of
    // the first row and no later row was visited.
    assert_eq!(handler.visited, vec![Point::new(0, 0)]);
}

#[test]
fn test_process_image_continue_row_skips_rest_of_row() {
    let analyzer = ImageAnalyzer::new(sample_image());
    let mut handler = Recorder { visited: Vec::new(), answer: Some(LoopResult::Continue(Axis::Y)) };
    let result = analyzer.process_image(ImageZone::Full, &mut handler);
    assert!(result.is_ok());
    // One pixel per row.
    assert_eq!(handler.visited, vec![Point::new(0, 0), Point::new(0, 1)]);
}

#[test]
fn test_process_image_break_column_acts_like_row_cut() {
    let analyzer = ImageAnalyzer::new(sample_image());
    let mut handler = Recorder { visited: Vec::new(), answer: Some(LoopResult::Break(Axis::X)) };
    let result = analyzer.process_image(ImageZone::Full, &mut handler);
    assert!(result.is_ok());
    assert_eq!(handler.visited, vec![Point::new(0, 0), Point::new(0, 1)]);
}

#[test]
fn test_process_image_partial_zone() {
    let analyzer = ImageAnalyzer::new(sample_image());
    let mut handler = Recorder { visited: Vec::new(), answer: None };
    let zone = ImageZone::Partial(Point::new(1, 0), Point::new(2, 2));
    let result = analyzer.process_image(zone, &mut handler);
    assert!(result.is_ok());
    assert_eq!(handler.visited, vec![Point::new(1, 0), Point::new(1, 1)]);
}

#[test]
fn test_zone_validation_failures() {
    let analyzer = ImageAnalyzer::new(sample_image());
    let mut handler = Recorder { visited: Vec::new(), answer: None };
    // start == end must fail, not silently scan zero pixels.
    let degenerate = ImageZone::Partial(Point::new(1, 1), Point::new(1, 1));
    assert_eq!(
        analyzer.process_image(degenerate, &mut handler).err(),
        Some(ZoneError::ZeroArea)
    );
    // start beyond end must fail.
    let inverted = ImageZone::Partial(Point::new(2, 0), Point::new(1, 1));
    assert_eq!(
        analyzer.process_image(inverted, &mut handler).err(),
        Some(ZoneError::Inverted)
    );
    // extent beyond the image must fail.
    let oversized = ImageZone::Partial(Point::new(0, 0), Point::new(3, 1));
    assert_eq!(
        analyzer.process_image(oversized, &mut handler).err(),
        Some(ZoneError::OutOfBounds)
    );
    assert!(handler.visited.is_empty());
}

#[test]
fn test_zone_error_messages() {
    assert_eq!(ZoneError::Inverted.message(), "Zone start lies beyond its end");
    assert_eq!(ZoneError::OutOfBounds.message(), "Zone extends beyond the image");
    assert_eq!(ZoneError::ZeroArea.message(), "Zone has zero area");
}

#[test]
fn test_detect_pixels_groups_by_color() {
    let mut analyzer = ImageAnalyzer::new(sample_image());
    assert!(analyzer.detect_pixels(ImageZone::Full).is_ok());
    assert_eq!(analyzer.pixels.points_count, 4);
    assert_eq!(analyzer.pixels.pixels.len(), 3);
    let red = Color::from(Rgb::new(255, 0, 0));
    let bucket = analyzer.pixels.get_by_color(&red).expect("red bucket");
    assert_eq!(bucket.points, vec![Point::new(0, 0), Point::new(1, 1)]);
}

#[test]
fn test_detect_pixels_rejects_bad_zone() {
    let mut analyzer = ImageAnalyzer::new(sample_image());
    let degenerate = ImageZone::Partial(Point::new(0, 0), Point::new(0, 2));
    assert_eq!(analyzer.detect_pixels(degenerate), Err(ZoneError::ZeroArea));
    assert_eq!(analyzer.pixels.points_count, 0);
}

#[test]
fn test_detect_pixels_color_filters() {
    let mut analyzer = ImageAnalyzer::new(sample_image());
    let red = Color::from(Rgb::new(255, 0, 0));
    assert!(analyzer.detect_pixels_color(ImageZone::Full, red.clone()).is_ok());
    assert_eq!(analyzer.pixels.points_count, 2);
    assert_eq!(analyzer.pixels.pixels.len(), 1);
    assert_eq!(analyzer.pixels.pixels[0].points, vec![Point::new(0, 0), Point::new(1, 1)]);
}

#[test]
fn test_detect_pixel_with_tolerance_matches_near_colors() {
    let mut analyzer = ImageAnalyzer::new(sample_image());
    // A lenient value tolerance in HSV space accepts every fully
    // saturated primary pixel of the image (their hues differ, so allow a
    // full turn), but nothing else once value is bounded.
    let target = Color::from((
        Rgb::new(255, 0, 0),
        image_analyzer::hsv::Hsv { h: 360000, s: 0, v: 0, a: 0 },
    ));
    assert!(analyzer.detect_pixel_with_tolerance(ImageZone::Full, &target).is_ok());
    assert_eq!(analyzer.pixels.points_count, 4);
    assert_eq!(analyzer.pixels.pixels.len(), 3);
}

#[test]
fn test_detection_is_memoized_until_reset() {
    let mut analyzer = ImageAnalyzer::new(sample_image());
    assert!(analyzer.detect_pixels(ImageZone::Full).is_ok());
    assert_eq!(analyzer.pixels.points_count, 4);
    // The buffer is populated, so another detection returns it unchanged,
    // whatever its criteria.
    let red = Color::from(Rgb::new(255, 0, 0));
    assert!(analyzer.detect_pixels_color(ImageZone::Full, red).is_ok());
    assert_eq!(analyzer.pixels.points_count, 4);
    assert_eq!(analyzer.pixels.pixels.len(), 3);
    // An explicit reset makes the next detection scan afresh.
    analyzer.reset_pixels();
    assert_eq!(analyzer.pixels.points_count, 0);
    assert!(analyzer.detect_pixels(ImageZone::Full).is_ok());
    assert_eq!(analyzer.pixels.points_count, 4);
}

#[test]
fn test_set_image_resets_detection() {
    let mut analyzer = ImageAnalyzer::new(sample_image());
    assert!(analyzer.detect_pixels(ImageZone::Full).is_ok());
    assert_eq!(analyzer.pixels.points_count, 4);
    let plain = RgbaBuffer::from_raw(1, 1, vec![7, 8, 9, 255]).expect("buffer");
    analyzer.set_image(plain);
    assert_eq!(analyzer.pixels.points_count, 0);
    assert!(analyzer.detect_pixels(ImageZone::Full).is_ok());
    assert_eq!(analyzer.pixels.points_count, 1);
    assert_eq!(analyzer.pixels.pixels[0].color, Color::from(Rgb::new(7, 8, 9)));
}

#[test]
fn test_compare_pixel() {
    let red = Color::from(Rgb::new(255, 0, 0));
    let same_red = Color::from(Rgb::new(255, 0, 0));
    let green = Color::from(Rgb::new(0, 255, 0));
    assert!(ImageAnalyzer::compare_pixel(&same_red, Some(&red)));
    assert!(!ImageAnalyzer::compare_pixel(&green, Some(&red)));
    assert!(!ImageAnalyzer::compare_pixel(&red, None));
}

#[test]
fn test_batch_zones_deduplicates() {
    let analyzer = ImageAnalyzer::new(sample_image());
    let zone_a = ImageZone::Partial(Point::new(0, 0), Point::new(1, 1));
    let zone_b = ImageZone::Full;
    let batched = analyzer.batch_zones(vec![
        zone_a.clone(),
        zone_b.clone(),
        zone_a.clone(),
        zone_b.clone(),
    ]);
    assert_eq!(batched, vec![zone_a, zone_b]);
}

#[test]
fn test_detect_zones_scans_first_valid_zone() {
    let mut analyzer = ImageAnalyzer::new(sample_image());
    let bad = ImageZone::Partial(Point::new(1, 1), Point::new(1, 1));
    let good = ImageZone::Partial(Point::new(0, 0), Point::new(1, 2));
    analyzer.detect_zones(vec![bad, good, ImageZone::Full]);
    // The invalid zone is skipped; the first valid zone fills the buffer,
    // and the full-image zone then hits the memoized result.
    assert_eq!(analyzer.pixels.points_count, 2);
}

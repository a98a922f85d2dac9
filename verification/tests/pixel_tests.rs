use image_analyzer::color::Color;
use image_analyzer::pixel::PixelVec;
use image_analyzer::point::Point;
use image_analyzer::rgb::Rgb;

#[test]
fn test_push() {
    let mut pixel_vec = PixelVec::new();
    let point = Point::new(0, 0);
    let color = Color::from(Rgb::new(0, 0, 0));
    pixel_vec.push((color.clone(), point.clone()));
    assert_eq!(pixel_vec.points_count, 1);
    assert_eq!(pixel_vec.pixels.len(), 1);
    assert_eq!(pixel_vec.pixels[0].points.len(), 1);
    assert_eq!(pixel_vec.pixels[0].points[0], point);
    assert_eq!(pixel_vec.pixels[0].color, color);
}

#[test]
fn test_push_multiple() {
    let mut pixel_vec = PixelVec::new();
    let point = Point::new(0, 0);
    let color = Color::from(Rgb::new(0, 0, 0));
    pixel_vec.push((color.clone(), point.clone()));
    pixel_vec.push((color.clone(), point.clone()));
    assert_eq!(pixel_vec.points_count, 2);
    assert_eq!(pixel_vec.pixels.len(), 1);
    assert_eq!(pixel_vec.pixels[0].points.len(), 2);
    assert_eq!(pixel_vec.pixels[0].points[0], point.clone());
    assert_eq!(pixel_vec.pixels[0].points[1], point);
    assert_eq!(pixel_vec.pixels[0].color, color);
}

#[test]
fn test_push_multiple_colors() {
    let mut pixel_vec = PixelVec::new();
    let point = Point::new(0, 0);
    let color = Color::from(Rgb::new(0, 0, 0));
    let color2 = Color::from(Rgb::new(0, 0, 1));
    pixel_vec.push((color.clone(), point.clone()));
    pixel_vec.push((color2.clone(), point.clone()));
    assert_eq!(pixel_vec.points_count, 2);
    assert_eq!(pixel_vec.pixels.len(), 2);
    assert_eq!(pixel_vec.pixels[0].points.len(), 1);
    assert_eq!(pixel_vec.pixels[1].points.len(), 1);
    assert_eq!(pixel_vec.pixels[0].points[0], point.clone());
    assert_eq!(pixel_vec.pixels[1].points[0], point);
    assert_eq!(pixel_vec.pixels[0].color.clone(), color.clone());
    assert_eq!(pixel_vec.pixels[1].color, color2);
}

#[test]
fn test_push_preserves_order_within_bucket() {
    let mut pixel_vec = PixelVec::new();
    let color = Color::from(Rgb::new(9, 9, 9));
    pixel_vec.push((color.clone(), Point::new(3, 1)));
    pixel_vec.push((color.clone(), Point::new(1, 2)));
    pixel_vec.push((color.clone(), Point::new(3, 1)));
    assert_eq!(pixel_vec.points_count, 3);
    assert_eq!(pixel_vec.pixels.len(), 1);
    assert_eq!(pixel_vec.pixels[0].points, vec![
        Point::new(3, 1),
        Point::new(1, 2),
        Point::new(3, 1)
    ]);
}

#[test]
fn test_get_by_color() {
    let mut pixel_vec = PixelVec::new();
    let color = Color::from(Rgb::new(5, 6, 7));
    let other = Color::from(Rgb::new(7, 6, 5));
    pixel_vec.push((color.clone(), Point::new(4, 4)));
    let bucket = pixel_vec.get_by_color(&color).expect("bucket should exist");
    assert_eq!(bucket.color, color);
    assert_eq!(bucket.points, vec![Point::new(4, 4)]);
    assert!(pixel_vec.get_by_color(&other).is_none());
}

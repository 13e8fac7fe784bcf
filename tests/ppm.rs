use ray_tracing_001::color::Color;
use ray_tracing_001::ppm::{header, pixel_line, push_decimal};

#[test]
fn header_of_small_image() {
    assert_eq!(header(4, 2), b"P3\n4 2\n255\n".to_vec());
}

#[test]
fn header_of_wide_image() {
    assert_eq!(header(200, 112), b"P3\n200 112\n255\n".to_vec());
}

#[test]
fn header_of_empty_image() {
    assert_eq!(header(0, 0), b"P3\n0 0\n255\n".to_vec());
}

#[test]
fn pixel_line_writes_three_channels() {
    assert_eq!(pixel_line(&Color::new(0, 111, 255)), b"0 111 255\n".to_vec());
}

#[test]
fn pixel_line_of_black() {
    assert_eq!(pixel_line(&Color::new(0, 0, 0)), b"0 0 0\n".to_vec());
}

#[test]
fn push_decimal_appends() {
    let mut out = b"x=".to_vec();
    push_decimal(&mut out, 10);
    assert_eq!(out, b"x=10".to_vec());
}

#[test]
fn push_decimal_zero_and_largest() {
    let mut out = Vec::new();
    push_decimal(&mut out, 0);
    assert_eq!(out, b"0".to_vec());
    let mut big = Vec::new();
    push_decimal(&mut big, usize::MAX);
    assert_eq!(big, usize::MAX.to_string().into_bytes());
}

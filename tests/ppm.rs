use rust_ray_tracer::ppm::{pixel_line, ppm_header, push_decimal, Rgb};

#[test]
fn header_names_size_and_depth() {
    assert_eq!(ppm_header(256, 144), b"P3\n256 144\n255\n".to_vec());
    assert_eq!(ppm_header(0, 7), b"P3\n0 7\n255\n".to_vec());
}

#[test]
fn pixel_line_is_three_decimals() {
    assert_eq!(pixel_line(Rgb { r: 255, g: 0, b: 7 }), b"255 0 7\n".to_vec());
    assert_eq!(pixel_line(Rgb { r: 10, g: 100, b: 99 }), b"10 100 99\n".to_vec());
}

#[test]
fn decimals_have_no_leading_zero() {
    let mut out = b"x".to_vec();
    push_decimal(&mut out, 0);
    assert_eq!(out, b"x0".to_vec());
    let mut out = Vec::new();
    push_decimal(&mut out, 1234567890);
    assert_eq!(out, b"1234567890".to_vec());
    let mut out = Vec::new();
    push_decimal(&mut out, u64::MAX);
    assert_eq!(out, u64::MAX.to_string().into_bytes());
}

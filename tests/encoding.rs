use raytracer::ppm::{encode_ppm, push_decimal, push_header, push_pixel};

#[test]
fn decimal_digits() {
    let mut out: Vec<u8> = Vec::new();
    push_decimal(&mut out, 0);
    assert_eq!(out, b"0".to_vec());
    let mut out: Vec<u8> = b"x".to_vec();
    push_decimal(&mut out, 1200);
    assert_eq!(out, b"x1200".to_vec());
    let mut out: Vec<u8> = Vec::new();
    push_decimal(&mut out, u64::MAX);
    assert_eq!(out, u64::MAX.to_string().into_bytes());
}

#[test]
fn header_block() {
    let mut out: Vec<u8> = Vec::new();
    push_header(&mut out, 1200, 800);
    assert_eq!(out, b"P3\n1200 800\n255\n".to_vec());
}

#[test]
fn pixel_line() {
    let mut out: Vec<u8> = Vec::new();
    push_pixel(&mut out, (0, 127, 255));
    assert_eq!(out, b"0 127 255\n".to_vec());
}

#[test]
fn small_image() {
    let pixels = vec![(1u8, 2u8, 3u8), (40, 50, 60)];
    let bytes = encode_ppm(2, 1, &pixels).unwrap();
    assert_eq!(String::from_utf8(bytes).unwrap(), "P3\n2 1\n255\n1 2 3\n40 50 60\n");
}

#[test]
fn empty_image() {
    let pixels: Vec<(u8, u8, u8)> = Vec::new();
    let bytes = encode_ppm(0, 5, &pixels).unwrap();
    assert_eq!(String::from_utf8(bytes).unwrap(), "P3\n0 5\n255\n");
}

#[test]
fn wrong_pixel_count_is_refused() {
    let pixels = vec![(1u8, 2u8, 3u8)];
    assert!(encode_ppm(2, 1, &pixels).is_none());
    assert!(encode_ppm(usize::MAX, 2, &pixels).is_none());
}

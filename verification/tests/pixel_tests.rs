use waywin::pixels::generate_pixels;

#[test]
fn generate_pixels_length_is_4_w_h() {
    let bytes = generate_pixels(320, 240);
    assert_eq!(bytes.len(), 4 * 320 * 240);
    let bytes = generate_pixels(1, 1);
    assert_eq!(bytes.len(), 4);
    let bytes = generate_pixels(7, 3);
    assert_eq!(bytes.len(), 4 * 7 * 3);
}

#[test]
fn generate_pixels_is_deterministic() {
    let first = generate_pixels(320, 240);
    let second = generate_pixels(320, 240);
    assert_eq!(first, second);
    let first = generate_pixels(13, 29);
    let second = generate_pixels(13, 29);
    assert_eq!(first, second);
}

#[test]
fn generate_pixels_2x2_exact_bytes() {
    // Per pixel: blue, green, red, alpha. For a 2x2 image the channel
    // ratios are 255 (full distance), 127 (half distance) or 0.
    let expected: Vec<u8> = vec![
        0, 0, 255, 255, // (0, 0)
        0, 127, 127, 255, // (1, 0)
        127, 0, 127, 255, // (0, 1)
        127, 127, 127, 255, // (1, 1)
    ];
    assert_eq!(generate_pixels(2, 2), expected);
}

#[test]
fn generate_pixels_1x1_is_opaque_black_corner() {
    // At the single pixel the green ratio is 0 and blue is 0, red is 255.
    assert_eq!(generate_pixels(1, 1), vec![0, 0, 255, 255]);
}

#[test]
fn buffer_layout_matches_generated_content() {
    let (stride, size) = waywin::pixels::buffer_layout(320, 240);
    assert_eq!(stride, 1280);
    assert_eq!(size, 307200);
    assert_eq!(size as usize, generate_pixels(320, 240).len());
    assert!(size >= stride * 240);
}

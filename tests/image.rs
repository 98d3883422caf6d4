use uefi_hello_world::image::{centered_origin, image_pixels, parse_dimensions, ImageError};

fn bytes_of(words: &[u32]) -> Vec<u8> {
    words.iter().flat_map(|w| w.to_ne_bytes()).collect()
}

#[test]
fn image_pixels_of_right_size() {
    let words: Vec<u32> = vec![0x00FF_0000, 0x0000_FF00, 0x0000_00FF, 0x00FF_FFFF, 0, 1];
    let backing: Vec<u32> = words.clone();
    let bytes: &[u8] = bytemuck::cast_slice(&backing);
    assert_eq!(bytes.len(), 24);
    let pixels = image_pixels(bytes, 3, 2).unwrap();
    assert_eq!(pixels.len(), 6);
    assert_eq!(pixels, words);
}

#[test]
fn image_pixels_of_empty_image() {
    let backing: Vec<u32> = Vec::new();
    let bytes: &[u8] = bytemuck::cast_slice(&backing);
    assert_eq!(image_pixels(bytes, 0, 5), Ok(Vec::new()));
}

#[test]
fn image_pixels_size_mismatch() {
    let bytes = bytes_of(&[1, 2, 3, 4]);
    assert_eq!(image_pixels(&bytes, 3, 2), Err(ImageError::SizeMismatch));
    assert_eq!(image_pixels(&bytes[..15], 2, 2), Err(ImageError::SizeMismatch));
    assert_eq!(image_pixels(&bytes, usize::MAX, 2), Err(ImageError::SizeMismatch));
    assert_eq!(image_pixels(&bytes, usize::MAX / 4 + 1, 1), Err(ImageError::SizeMismatch));
}

#[test]
fn image_pixels_misaligned() {
    let backing: Vec<u32> = vec![0; 3];
    let bytes: &[u8] = bytemuck::cast_slice(&backing);
    assert_eq!(image_pixels(&bytes[1..9], 2, 1), Err(ImageError::Misaligned));
}

#[test]
fn centered_origin_of_logo() {
    assert_eq!(centered_origin(1024, 768, 200, 100), (412, 334));
    assert_eq!(centered_origin(800, 600, 800, 600), (0, 0));
    assert_eq!(centered_origin(801, 601, 100, 100), (350, 250));
}

#[test]
fn dimensions_text_is_read() {
    assert_eq!(parse_dimensions(b"(640,480)"), Some((640, 480)));
    assert_eq!(parse_dimensions(b"(1,2)"), Some((1, 2)));
    assert_eq!(parse_dimensions(b"(007,0)"), Some((7, 0)));
}

#[test]
fn dimensions_text_of_other_shape_is_refused() {
    assert_eq!(parse_dimensions(b""), None);
    assert_eq!(parse_dimensions(b"(640480)"), None);
    assert_eq!(parse_dimensions(b"(,480)"), None);
    assert_eq!(parse_dimensions(b"(640,)"), None);
    assert_eq!(parse_dimensions(b"640,480"), None);
    assert_eq!(parse_dimensions(b"(640, 480)"), None);
    assert_eq!(parse_dimensions(b"(6a0,480)"), None);
    assert_eq!(parse_dimensions(b"(640,480)\n"), None);
    assert_eq!(parse_dimensions(b"(1,2,3)"), None);
}

#[test]
fn dimensions_text_too_large_is_refused() {
    let max = format!("({},1)", usize::MAX);
    assert_eq!(parse_dimensions(max.as_bytes()), Some((usize::MAX, 1)));
    assert_eq!(parse_dimensions(b"(1,99999999999999999999999)"), None);
    assert_eq!(parse_dimensions(b"(18446744073709551616,1)"), None);
}

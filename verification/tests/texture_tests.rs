//! Decoding behavior of the texture loader.

use ventura::render::texture::{decode_rgba, TextureError};

const TEST_PNG: [u8; 76] = [137, 80, 78, 71, 13, 10, 26, 10, 0, 0, 0, 13, 73, 72, 68, 82, 0, 0, 0, 2, 0, 0, 0, 2, 8, 6, 0, 0, 0, 114, 182, 13, 36, 0, 0, 0, 19, 73, 68, 65, 84, 120, 156, 99, 248, 207, 192, 240, 31, 12, 129, 52, 8, 52, 0, 0, 73, 73, 9, 120, 40, 160, 219, 119, 0, 0, 0, 0, 73, 69, 78, 68, 174, 66, 96, 130];

#[test]
fn decode_error_on_non_image_bytes() {
    let garbage: Vec<u8> = vec![0, 1, 2, 3, 4, 5, 6, 7, 8, 9, 10, 11, 12, 13, 14, 15];
    let r = decode_rgba(&garbage);
    assert!(matches!(r, Err(TextureError::Decode(_))));
}

#[test]
fn decode_error_on_empty_bytes() {
    let r = decode_rgba(&[]);
    assert!(matches!(r, Err(TextureError::Decode(_))));
}

#[test]
fn decode_error_on_truncated_png() {
    let r = decode_rgba(&TEST_PNG[..20]);
    assert!(matches!(r, Err(TextureError::Decode(_))));
}

#[test]
fn decode_valid_png() {
    let img = decode_rgba(&TEST_PNG).expect("valid png must decode");
    assert_eq!(img.width, 2);
    assert_eq!(img.height, 2);
    assert_eq!(img.pixels.len(), 16);
    assert_eq!(&img.pixels[0..4], &[255, 0, 0, 255]);
    assert_eq!(&img.pixels[4..8], &[0, 255, 0, 255]);
    assert_eq!(&img.pixels[8..12], &[0, 0, 255, 255]);
    assert_eq!(&img.pixels[12..16], &[255, 255, 255, 128]);
}

#[test]
fn decode_matches_image_crate() {
    let img = decode_rgba(&TEST_PNG).expect("valid png must decode");
    let reference = image::load_from_memory(&TEST_PNG).expect("valid png").to_rgba8();
    assert_eq!(img.width, reference.width());
    assert_eq!(img.height, reference.height());
    assert_eq!(img.pixels, reference.into_raw());
}

use metafy::encoding::{bounded_encode_dimensions, resize_bgra_nearest};
use metafy::media::backends::windows::bgra_to_nv12;

fn bgra_pixels(pixels: &[[u8; 4]]) -> Vec<u8> {
    let mut bytes = Vec::with_capacity(pixels.len() * 4);
    for pixel in pixels {
        bytes.extend_from_slice(pixel);
    }
    bytes
}

#[test]
fn bounded_encode_dimensions_preserves_safe_even_frames() {
    assert_eq!(bounded_encode_dimensions(1280, 720), (1280, 720));
    assert_eq!(bounded_encode_dimensions(1279, 719), (1278, 718));
}

#[test]
fn bounded_encode_dimensions_downscales_retina_display_capture() {
    assert_eq!(bounded_encode_dimensions(3600, 2338), (1662, 1080));
}

#[test]
fn bounded_encode_dimensions_never_returns_zero() {
    assert_eq!(bounded_encode_dimensions(1, 1), (1, 1));
    assert_eq!(bounded_encode_dimensions(3840, 2160), (1920, 1080));
}

#[test]
fn resize_bgra_nearest_samples_source_pixels() {
    let source = bgra_pixels(&[
        [1, 0, 0, 255],
        [2, 0, 0, 255],
        [3, 0, 0, 255],
        [4, 0, 0, 255],
        [5, 0, 0, 255],
        [6, 0, 0, 255],
        [7, 0, 0, 255],
        [8, 0, 0, 255],
    ]);

    let output = resize_bgra_nearest(&source, 4, 2, 2, 2).expect("resize");

    assert_eq!(
        output,
        bgra_pixels(&[[1, 0, 0, 255], [3, 0, 0, 255], [5, 0, 0, 255], [7, 0, 0, 255]])
    );
}

#[test]
fn resize_bgra_nearest_rejects_wrong_byte_count() {
    assert!(resize_bgra_nearest(&[0u8; 12], 2, 2, 1, 1).is_err());
}

#[test]
fn converts_bgra_to_nv12_with_expected_layout() {
    let bgra = vec![
        0x00, 0x00, 0xff, 0xff, // red
        0x00, 0xff, 0x00, 0xff, // green
        0xff, 0x00, 0x00, 0xff, // blue
        0xff, 0xff, 0xff, 0xff, // white
    ];

    let nv12 = bgra_to_nv12(&bgra, 2, 2).expect("convert");

    assert_eq!(nv12.len(), 6);
    assert_eq!(&nv12[0..4], &[82, 144, 41, 235]);
    assert_eq!(nv12[4], 128);
    assert_eq!(nv12[5], 128);
}

#[test]
fn nv12_conversion_rejects_odd_dimensions_and_short_input() {
    assert!(bgra_to_nv12(&[0u8; 12], 3, 1).is_err());
    assert!(bgra_to_nv12(&[0u8; 8], 2, 2).is_err());
}

use std::borrow::Cow;

use metafy::capture::CaptureVideoSourceKind;
use metafy::platform::PlatformBackend;
use metafy::recorder::{
    encode_video_frame_bytes, normalize_bgra_frame, parse_video_target_descriptor,
    selected_video_target_index, OutputCanvas, VideoTargetDescriptor, BGRA_BYTES_PER_PIXEL,
    BGRA_FORMAT_CODE,
};
use metafy::media::sidecar::BGRA_LZ4_FORMAT_CODE;

const RED: [u8; BGRA_BYTES_PER_PIXEL] = [0x00, 0x00, 0xff, 0xff];
const GREEN: [u8; BGRA_BYTES_PER_PIXEL] = [0x00, 0xff, 0x00, 0xff];
const BLUE: [u8; BGRA_BYTES_PER_PIXEL] = [0xff, 0x00, 0x00, 0xff];
const WHITE: [u8; BGRA_BYTES_PER_PIXEL] = [0xff, 0xff, 0xff, 0xff];
const OPAQUE_BLACK_BGRA: [u8; BGRA_BYTES_PER_PIXEL] = [0x00, 0x00, 0x00, 0xff];

fn bgra_pixels(pixels: &[[u8; BGRA_BYTES_PER_PIXEL]]) -> Vec<u8> {
    let mut bytes = Vec::with_capacity(pixels.len() * BGRA_BYTES_PER_PIXEL);
    for pixel in pixels {
        bytes.extend_from_slice(pixel);
    }
    bytes
}

fn gradient_bgra_frame(width: u32, height: u32) -> Vec<u8> {
    let mut bytes = Vec::with_capacity((width * height * BGRA_BYTES_PER_PIXEL as u32) as usize);
    for y in 0..height {
        for x in 0..width {
            bytes.extend_from_slice(&gradient_pixel(x, y));
        }
    }
    bytes
}

fn gradient_pixel(x: u32, y: u32) -> [u8; BGRA_BYTES_PER_PIXEL] {
    [x as u8, y as u8, x.wrapping_add(y) as u8, 0xff]
}

fn pixel(bytes: &[u8], width: u32, x: u32, y: u32) -> [u8; BGRA_BYTES_PER_PIXEL] {
    let index = ((y * width + x) * BGRA_BYTES_PER_PIXEL as u32) as usize;
    bytes[index..index + BGRA_BYTES_PER_PIXEL]
        .try_into()
        .expect("pixel bytes")
}

#[test]
fn parses_display_and_window_video_target_descriptors() {
    assert_eq!(
        parse_video_target_descriptor("display:7", PlatformBackend::Macos)
            .expect("display descriptor"),
        VideoTargetDescriptor {
            kind: CaptureVideoSourceKind::Display,
            native_id: 7,
        }
    );
    assert_eq!(
        parse_video_target_descriptor("window:42", PlatformBackend::Macos)
            .expect("window descriptor"),
        VideoTargetDescriptor {
            kind: CaptureVideoSourceKind::Window,
            native_id: 42,
        }
    );
}

#[test]
fn rejects_application_video_target_descriptor() {
    let error = parse_video_target_descriptor("application:com.metafy.app", PlatformBackend::Macos)
        .expect_err("application capture is constrained by the current backend");

    assert!(error.contains("Application video capture is not available"));
}

#[test]
fn rejects_invalid_numeric_video_target_ids() {
    let error = parse_video_target_descriptor("window:not-a-number", PlatformBackend::Macos)
        .expect_err("invalid window id");

    assert_eq!(error, "Selected window id is invalid.");
}

#[test]
fn rejects_window_targets_where_windows_cannot_be_captured() {
    let error = parse_video_target_descriptor("window:42", PlatformBackend::Linux)
        .expect_err("window capture is unavailable on this platform");
    assert_eq!(error, "Window video capture is not supported on this platform.");
}

#[test]
fn resolves_matching_video_target_index() {
    let targets = vec![
        VideoTargetDescriptor {
            kind: CaptureVideoSourceKind::Display,
            native_id: 1,
        },
        VideoTargetDescriptor {
            kind: CaptureVideoSourceKind::Window,
            native_id: 42,
        },
    ];

    assert_eq!(
        selected_video_target_index(
            VideoTargetDescriptor {
                kind: CaptureVideoSourceKind::Window,
                native_id: 42,
            },
            &targets,
        ),
        Some(1)
    );
    assert_eq!(
        selected_video_target_index(
            VideoTargetDescriptor {
                kind: CaptureVideoSourceKind::Window,
                native_id: 99,
            },
            &targets,
        ),
        None
    );
}

#[test]
fn bounded_output_canvas_caps_retina_capture() {
    let canvas = OutputCanvas::bounded(3600, 2338).expect("canvas");

    assert_eq!(canvas.width, 1108);
    assert_eq!(canvas.height, 720);
}

#[test]
fn output_canvas_rejects_empty_dimensions() {
    assert!(OutputCanvas::new(0, 4).is_err());
    assert!(OutputCanvas::bounded(4, 0).is_err());
    let small = OutputCanvas::bounded(641, 361).expect("canvas");
    assert_eq!((small.width, small.height), (640, 360));
}

#[test]
fn video_frame_encoding_uses_lz4_when_smaller() {
    let source = vec![0x80; 128 * 128 * BGRA_BYTES_PER_PIXEL];

    let (format_code, encoded) = encode_video_frame_bytes(&source);

    assert_eq!(format_code, BGRA_LZ4_FORMAT_CODE);
    assert!(encoded.len() < source.len());
    let decoded = lz4_flex::decompress_size_prepended(encoded.as_ref()).expect("decompress frame");
    assert_eq!(decoded, source);
}

#[test]
fn incompressible_frames_are_stored_raw() {
    let source: Vec<u8> = (0..16u8).collect();
    let (format_code, encoded) = encode_video_frame_bytes(&source);
    assert_eq!(format_code, BGRA_FORMAT_CODE);
    assert_eq!(encoded.as_ref(), source.as_slice());
}

#[test]
fn same_size_bgra_frames_pass_through_unchanged() {
    let canvas = OutputCanvas::new(2, 2).expect("canvas");
    let source = bgra_pixels(&[RED, GREEN, BLUE, WHITE]);

    let normalized =
        normalize_bgra_frame(2, 2, BGRA_FORMAT_CODE, &source, canvas).expect("normalize");

    assert!(matches!(&normalized.bytes, Cow::Borrowed(_)));
    assert_eq!(normalized.output_width, 2);
    assert_eq!(normalized.output_height, 2);
    assert_eq!(normalized.scaled_width, 2);
    assert_eq!(normalized.scaled_height, 2);
    assert_eq!(normalized.x_offset, 0);
    assert_eq!(normalized.y_offset, 0);
    assert_eq!(normalized.bytes.as_ref(), source.as_slice());
}

#[test]
fn smaller_bgra_frames_scale_up_to_the_locked_canvas() {
    let canvas = OutputCanvas::new(4, 4).expect("canvas");
    let source = bgra_pixels(&[RED, GREEN, BLUE, WHITE]);

    let normalized =
        normalize_bgra_frame(2, 2, BGRA_FORMAT_CODE, &source, canvas).expect("normalize");

    assert_eq!(normalized.output_width, 4);
    assert_eq!(normalized.output_height, 4);
    assert_eq!(normalized.scaled_width, 4);
    assert_eq!(normalized.scaled_height, 4);
    assert_eq!(normalized.x_offset, 0);
    assert_eq!(normalized.y_offset, 0);
    assert_eq!(pixel(normalized.bytes.as_ref(), 4, 0, 0), RED);
    assert_eq!(pixel(normalized.bytes.as_ref(), 4, 1, 0), RED);
    assert_eq!(pixel(normalized.bytes.as_ref(), 4, 2, 0), GREEN);
    assert_eq!(pixel(normalized.bytes.as_ref(), 4, 3, 3), WHITE);
}

#[test]
fn larger_bgra_frames_scale_down_to_the_locked_canvas() {
    let canvas = OutputCanvas::new(2, 2).expect("canvas");
    let source = gradient_bgra_frame(4, 4);

    let normalized =
        normalize_bgra_frame(4, 4, BGRA_FORMAT_CODE, &source, canvas).expect("normalize");

    assert_eq!(normalized.output_width, 2);
    assert_eq!(normalized.output_height, 2);
    assert_eq!(normalized.scaled_width, 2);
    assert_eq!(normalized.scaled_height, 2);
    assert_eq!(pixel(normalized.bytes.as_ref(), 2, 0, 0), gradient_pixel(0, 0));
    assert_eq!(pixel(normalized.bytes.as_ref(), 2, 1, 0), gradient_pixel(2, 0));
    assert_eq!(pixel(normalized.bytes.as_ref(), 2, 0, 1), gradient_pixel(0, 2));
    assert_eq!(pixel(normalized.bytes.as_ref(), 2, 1, 1), gradient_pixel(2, 2));
}

#[test]
fn wider_bgra_frames_preserve_aspect_ratio_with_centered_black_padding() {
    let canvas = OutputCanvas::new(4, 4).expect("canvas");
    let source = gradient_bgra_frame(4, 2);

    let normalized =
        normalize_bgra_frame(4, 2, BGRA_FORMAT_CODE, &source, canvas).expect("normalize");

    assert_eq!(normalized.output_width, 4);
    assert_eq!(normalized.output_height, 4);
    assert_eq!(normalized.scaled_width, 4);
    assert_eq!(normalized.scaled_height, 2);
    assert_eq!(normalized.x_offset, 0);
    assert_eq!(normalized.y_offset, 1);
    assert_eq!(pixel(normalized.bytes.as_ref(), 4, 0, 0), OPAQUE_BLACK_BGRA);
    assert_eq!(pixel(normalized.bytes.as_ref(), 4, 3, 3), OPAQUE_BLACK_BGRA);
    assert_eq!(pixel(normalized.bytes.as_ref(), 4, 0, 1), gradient_pixel(0, 0));
    assert_eq!(pixel(normalized.bytes.as_ref(), 4, 3, 2), gradient_pixel(3, 1));
}

#[test]
fn taller_bgra_frames_preserve_aspect_ratio_with_centered_black_padding() {
    let canvas = OutputCanvas::new(4, 4).expect("canvas");
    let source = gradient_bgra_frame(2, 4);

    let normalized =
        normalize_bgra_frame(2, 4, BGRA_FORMAT_CODE, &source, canvas).expect("normalize");

    assert_eq!(normalized.output_width, 4);
    assert_eq!(normalized.output_height, 4);
    assert_eq!(normalized.scaled_width, 2);
    assert_eq!(normalized.scaled_height, 4);
    assert_eq!(normalized.x_offset, 1);
    assert_eq!(normalized.y_offset, 0);
    assert_eq!(pixel(normalized.bytes.as_ref(), 4, 0, 0), OPAQUE_BLACK_BGRA);
    assert_eq!(pixel(normalized.bytes.as_ref(), 4, 3, 3), OPAQUE_BLACK_BGRA);
    assert_eq!(pixel(normalized.bytes.as_ref(), 4, 1, 0), gradient_pixel(0, 0));
    assert_eq!(pixel(normalized.bytes.as_ref(), 4, 2, 3), gradient_pixel(1, 3));
}

#[test]
fn frames_of_another_format_or_size_are_rejected() {
    let canvas = OutputCanvas::new(2, 2).expect("canvas");
    let source = bgra_pixels(&[RED, GREEN, BLUE, WHITE]);
    let error = normalize_bgra_frame(2, 2, 99, &source, canvas).expect_err("format");
    assert_eq!(error, "Unsupported captured frame format 99; expected BGRA.");
    assert!(normalize_bgra_frame(2, 3, BGRA_FORMAT_CODE, &source, canvas).is_err());
}

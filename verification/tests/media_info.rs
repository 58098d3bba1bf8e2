use metafy::media::metadata::{derive_media_info, duration_ms_from_frames, MediaInfoSource};
use metafy::media::thumbnail::{encode_bgra_thumbnail, BgraFrame};

#[test]
fn derives_duration_from_longest_video_or_audio_timeline() {
    let info = derive_media_info(
        MediaInfoSource {
            width: 1280,
            height: 720,
            frame_rate: 30,
            frame_count: 60,
            audio_duration_ms: Some(2_500),
            duration_hint_ms: Some(3_000),
            audio_included: true,
            backend_id: "test-backend".to_owned(),
            backend_diagnostics: vec!["encoded".to_owned()],
        },
        Some(4),
    );

    assert_eq!(info.duration_ms, Some(2_500));
    assert_eq!(info.file_size_bytes, Some(4));
    assert_eq!(info.backend_id, "test-backend");
    assert_eq!(info.backend_diagnostics, vec!["encoded"]);
}

#[test]
fn falls_back_to_session_duration_when_timelines_are_unavailable() {
    let info = derive_media_info(
        MediaInfoSource {
            width: 0,
            height: 0,
            frame_rate: 0,
            frame_count: 0,
            audio_duration_ms: None,
            duration_hint_ms: Some(1_234),
            audio_included: false,
            backend_id: "test-backend".to_owned(),
            backend_diagnostics: Vec::new(),
        },
        None,
    );

    assert_eq!(info.duration_ms, Some(1_234));
    assert_eq!(info.file_size_bytes, None);
}

#[test]
fn frame_duration_rounds_half_up() {
    assert_eq!(duration_ms_from_frames(60, 30), Some(2_000));
    assert_eq!(duration_ms_from_frames(1, 3), Some(333));
    assert_eq!(duration_ms_from_frames(2, 3), Some(667));
    assert_eq!(duration_ms_from_frames(1, 0), None);
}

#[test]
fn rejects_misaligned_bgra_input() {
    let frame = BgraFrame {
        width: 2,
        height: 2,
        bytes: vec![0; 4],
    };

    let error = encode_bgra_thumbnail(&frame).expect_err("misaligned frame should fail");

    assert!(error.contains("expected 16"), "{error}");
}

#[test]
fn writes_jpeg_thumbnail_from_bgra_frame_without_external_binaries() {
    let frame = BgraFrame {
        width: 2,
        height: 1,
        bytes: vec![
            0x00, 0x00, 0xff, 0xff, // red
            0xff, 0x00, 0x00, 0xff, // blue
        ],
    };

    let bytes = encode_bgra_thumbnail(&frame).expect("write thumbnail");

    assert_eq!(&bytes[0..2], &[0xff, 0xd8]);
    assert!(bytes.len() > 100);
    let decoded = image::load_from_memory(&bytes).expect("decode thumbnail");
    assert_eq!(decoded.width(), 480);
    assert_eq!(decoded.height(), 240);
}

#[test]
fn thumbnail_rejects_empty_frames() {
    let frame = BgraFrame {
        width: 0,
        height: 2,
        bytes: Vec::new(),
    };
    assert_eq!(
        encode_bgra_thumbnail(&frame).unwrap_err(),
        "Thumbnail source frame dimensions are invalid."
    );
}

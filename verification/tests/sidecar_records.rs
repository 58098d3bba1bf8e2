use metafy::media::sidecar::{
    decompress_lz4_bgra_frame, encode_audio_block_header, encode_video_frame_header,
    parse_audio_block_header, parse_video_frame_header, video_frame_record, AudioBlockHeader,
    RawAudioFormat, RawAudioMetadataError, VideoFrameHeader, BGRA_FORMAT_CODE,
    VIDEO_FRAME_HEADER_LEN,
};
use metafy::recorder::encode_video_frame_bytes;

fn audio_format() -> RawAudioFormat {
    RawAudioFormat {
        sample_rate: 48_000,
        channels: 2,
        sample_format: "f32".to_owned(),
    }
}

#[test]
fn audio_metadata_validation_covers_session_fields() {
    assert_eq!(
        RawAudioFormat::from_session_metadata(None, Some(2), Some("f32".to_owned())),
        Err(RawAudioMetadataError::MissingSampleRate)
    );
    assert_eq!(
        RawAudioFormat::from_session_metadata(Some(0), Some(2), Some("f32".to_owned())),
        Err(RawAudioMetadataError::MissingSampleRate)
    );
    assert_eq!(
        RawAudioFormat::from_session_metadata(Some(48_000), None, Some("f32".to_owned())),
        Err(RawAudioMetadataError::MissingChannels)
    );
    assert_eq!(
        RawAudioFormat::from_session_metadata(Some(48_000), Some(2), None),
        Err(RawAudioMetadataError::MissingSampleFormat)
    );
    assert_eq!(
        RawAudioFormat::from_session_metadata(Some(48_000), Some(2), Some("pcm24".to_owned())),
        Err(RawAudioMetadataError::UnsupportedSampleFormat)
    );
    assert_eq!(
        RawAudioFormat::from_session_metadata(Some(48_000), Some(2), Some("f32".to_owned()))
            .expect("valid format"),
        audio_format()
    );
}

#[test]
fn video_header_round_trips_through_its_bytes() {
    let header = VideoFrameHeader {
        elapsed_ms: 33,
        display_time_ms: 43,
        format_code: BGRA_FORMAT_CODE,
        width: 2,
        height: 1,
        byte_count: 8,
    };
    let bytes = encode_video_frame_header(&header);
    assert_eq!(bytes.len(), VIDEO_FRAME_HEADER_LEN);
    assert_eq!(&bytes[0..8], &33u64.to_le_bytes());
    assert_eq!(&bytes[16..20], &7u32.to_le_bytes());
    assert_eq!(parse_video_frame_header(&bytes), header);
}

#[test]
fn audio_header_round_trips_through_its_bytes() {
    let header = AudioBlockHeader {
        elapsed_ms: 20,
        callback_stream_ns: 120,
        capture_stream_ns: 220,
        byte_count: 16,
    };
    let bytes = encode_audio_block_header(&header);
    assert_eq!(bytes.len(), 28);
    assert_eq!(&bytes[24..28], &16u32.to_le_bytes());
    assert_eq!(parse_audio_block_header(&bytes), header);
}

#[test]
fn video_record_is_header_then_payload() {
    let payload = [1u8, 2, 3, 4, 5, 6, 7, 8];
    let record = video_frame_record(10, 11, BGRA_FORMAT_CODE, 2, 1, &payload).expect("record");
    assert_eq!(record.len(), VIDEO_FRAME_HEADER_LEN + payload.len());
    assert_eq!(&record[VIDEO_FRAME_HEADER_LEN..], &payload);
    let header = parse_video_frame_header(&record[..VIDEO_FRAME_HEADER_LEN]);
    assert_eq!(header.byte_count, 8);
    assert_eq!(header.width, 2);
}

#[test]
fn lz4_frames_decode_back_to_the_captured_bytes() {
    let source = vec![0x80u8; 16 * 16 * 4];
    let (format_code, encoded) = encode_video_frame_bytes(&source);
    assert_eq!(format_code, 8);
    let decoded =
        decompress_lz4_bgra_frame(&encoded, source.len(), 16, 16, "screen.raw").expect("decode");
    assert_eq!(decoded, source);
}

#[test]
fn lz4_frames_with_a_wrong_size_prefix_are_rejected() {
    let source = vec![0x80u8; 16 * 16 * 4];
    let (_, encoded) = encode_video_frame_bytes(&source);
    let error = decompress_lz4_bgra_frame(&encoded, 8, 2, 1, "screen.raw").expect_err("mismatch");
    assert!(error.starts_with("Raw video sidecar screen.raw"), "{error}");
    let short = decompress_lz4_bgra_frame(&[1, 2], 8, 2, 1, "screen.raw").expect_err("short");
    assert!(short.contains("missing its decoded size prefix"), "{short}");
}

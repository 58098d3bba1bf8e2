use metafy::media::backends::macos::{success_message, validate_audio_format, validate_audio_input_count};
use metafy::media::encode::EncodeVideoFormat;

#[test]
fn macos_encoder_accepts_one_prepared_float_track() {
    assert!(validate_audio_input_count(0).is_ok());
    assert!(validate_audio_input_count(1).is_ok());
    assert_eq!(
        validate_audio_input_count(2),
        Err("Native macOS encoder expects at most one prepared mixed audio input.".to_owned())
    );
    assert!(validate_audio_format("f32", 48_000, 2).is_ok());
    assert_eq!(
        validate_audio_format("i16", 48_000, 2),
        Err("Native macOS encoder expected prepared f32 audio, got i16.".to_owned())
    );
    assert_eq!(
        validate_audio_format("f32", 0, 2),
        Err("Native macOS encoder received invalid audio format metadata.".to_owned())
    );
    assert_eq!(
        validate_audio_format("f32", 48_000, 0),
        Err("Native macOS encoder received invalid audio format metadata.".to_owned())
    );
}

#[test]
fn native_encoder_reports_how_it_encoded() {
    assert_eq!(
        success_message(EncodeVideoFormat::RawBgra),
        "Encoded MP4 with AVFoundation H.264/AAC."
    );
    assert_eq!(
        success_message(EncodeVideoFormat::ChunkedH264Segments),
        "Muxed chunked H.264 recording with AVFoundation/AAC."
    );
}

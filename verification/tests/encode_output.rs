use metafy::encoding::{audio_source_warning, AudioSourceOutcome};
use metafy::media::encode::{
    encode_output, longest_audio_duration, EncodeAudioInput, EncodeInput, EncodeOutputPaths,
    EncodeVideoFormat, EncodeVideoInput,
};
use metafy::media::sidecar::RawAudioMetadataError;
use metafy::media::thumbnail::BgraFrame;

fn audio(duration_ms: Option<i64>) -> EncodeAudioInput {
    EncodeAudioInput {
        path: "/data/recordings/rec-1/encoding-audio.raw".to_owned(),
        sample_rate: 48_000,
        channels: 2,
        sample_format: "f32".to_owned(),
        duration_ms,
    }
}

fn input(audio_inputs: Vec<EncodeAudioInput>) -> EncodeInput {
    EncodeInput {
        recording_id: "rec-1".to_owned(),
        video: EncodeVideoInput {
            path: "/data/recordings/rec-1/encoding-video.bgra".to_owned(),
            format: EncodeVideoFormat::RawBgra,
            width: 1280,
            height: 720,
            frame_rate: 30,
            frame_count: 60,
            thumbnail_frame: BgraFrame { width: 1, height: 1, bytes: vec![0, 0, 0, 255] },
        },
        audio_inputs,
        output: EncodeOutputPaths {
            media_path: "/data/recordings/rec-1/recording.mp4".to_owned(),
            media_path_relative: "recordings/rec-1/recording.mp4".to_owned(),
            thumbnail_path: "/data/recordings/rec-1/thumbnail.jpg".to_owned(),
            thumbnail_path_relative: "recordings/rec-1/thumbnail.jpg".to_owned(),
            staging_media_path: "/data/recordings/rec-1/recording.encoding.mp4".to_owned(),
            staging_thumbnail_path: "/data/recordings/rec-1/thumbnail.encoding.jpg".to_owned(),
        },
        duration_hint_ms: Some(1_000),
        warnings: vec!["Microphone capture contained only silence; encoded without this source.".to_owned()],
    }
}

#[test]
fn encode_output_places_media_in_the_recording_directory() {
    let output = encode_output(
        input(vec![audio(Some(2_500)), audio(None), audio(Some(1_800))]),
        "macos-avfoundation",
        vec!["Encoded MP4 with AVFoundation H.264/AAC.".to_owned()],
        true,
        Some(4_096),
    );
    assert_eq!(output.recording_id, "rec-1");
    assert_eq!(output.media_path, "recordings/rec-1/recording.mp4");
    assert_eq!(output.thumbnail_path.as_deref(), Some("recordings/rec-1/thumbnail.jpg"));
    assert_eq!(output.absolute_media_path, "/data/recordings/rec-1/recording.mp4");
    assert_eq!(
        output.absolute_thumbnail_path.as_deref(),
        Some("/data/recordings/rec-1/thumbnail.jpg")
    );
    // 60 frames at 30 fps last 2000 ms; the longest audio track lasts 2500 ms.
    assert_eq!(output.duration_ms, Some(2_500));
    assert!(output.audio_included);
    assert_eq!(output.media_info.file_size_bytes, Some(4_096));
    assert_eq!(output.media_info.backend_id, "macos-avfoundation");
    assert_eq!(output.diagnostics.backend, "macos-avfoundation");
    assert!(output.diagnostics.commands.is_empty());
    assert_eq!(output.warnings.len(), 1);
}

#[test]
fn encode_output_without_thumbnail_or_audio_uses_video_length() {
    let output = encode_output(input(Vec::new()), "gstreamer", Vec::new(), false, None);
    assert_eq!(output.absolute_thumbnail_path, None);
    assert_eq!(output.thumbnail_path.as_deref(), Some("recordings/rec-1/thumbnail.jpg"));
    assert_eq!(output.duration_ms, Some(2_000));
    assert!(!output.audio_included);
    assert_eq!(output.media_info.file_size_bytes, None);
}

#[test]
fn longest_audio_duration_ignores_unknown_lengths() {
    assert_eq!(longest_audio_duration(&Vec::new()), None);
    assert_eq!(longest_audio_duration(&vec![audio(None)]), None);
    assert_eq!(
        longest_audio_duration(&vec![audio(Some(700)), audio(None), audio(Some(900))]),
        Some(900)
    );
}

#[test]
fn skipped_audio_sources_are_named_in_one_warning_each() {
    assert_eq!(
        audio_source_warning("Microphone", &AudioSourceOutcome::Missing).as_deref(),
        Some("Microphone was requested but the capture file was missing; encoded without this source.")
    );
    assert_eq!(
        audio_source_warning(
            "System audio",
            &AudioSourceOutcome::UnusableMetadata(RawAudioMetadataError::MissingSampleRate)
        )
        .as_deref(),
        Some("System audio sample rate was missing; encoded without this source.")
    );
    assert_eq!(
        audio_source_warning("Microphone", &AudioSourceOutcome::ReadFailed("short read".to_owned()))
            .as_deref(),
        Some("Unable to read captured Microphone: short read; encoded without this source.")
    );
    assert_eq!(
        audio_source_warning("Microphone", &AudioSourceOutcome::PrepareFailed("bad frame".to_owned()))
            .as_deref(),
        Some("Unable to prepare captured Microphone: bad frame; encoded without this source.")
    );
    assert_eq!(
        audio_source_warning("Microphone", &AudioSourceOutcome::Empty).as_deref(),
        Some("Microphone capture had no audio samples; encoded without this source.")
    );
    assert_eq!(
        audio_source_warning("Microphone", &AudioSourceOutcome::Silent).as_deref(),
        Some("Microphone capture contained only silence; encoded without this source.")
    );
    assert_eq!(audio_source_warning("Microphone", &AudioSourceOutcome::Usable), None);
}

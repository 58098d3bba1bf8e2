use metafy::recorder::VideoSourceDimensions;
use metafy::session_metadata::{session_sidecar, SessionResolution};
use metafy::storage::sessions::{new_recording_session, CreateRecordingSessionInput, RecordingSession};
use metafy::storage::CaptureAudioMode;

fn session(video_path: &str, microphone: Option<&str>) -> RecordingSession {
    let dir = "temp/recording-sessions/s9";
    new_recording_session(
        CreateRecordingSessionInput {
            id: "s9".to_owned(),
            recording_id: "rec-9".to_owned(),
            temp_directory: dir.to_owned(),
            video_path: video_path.to_owned(),
            audio_path: None,
            metadata_path: format!("{dir}/session.json"),
            video_source_id: "window:7".to_owned(),
            screen_source_id: "window:7".to_owned(),
            video_source_kind: "window".to_owned(),
            video_source_title: "Editor".to_owned(),
            video_source_app_name: Some("Code".to_owned()),
            video_source_process_id: Some(42),
            video_source_window_id: Some(7),
            microphone_device_id: None,
            include_microphone: microphone.is_some(),
            audio_mode: CaptureAudioMode::Microphone,
            microphone_audio_path: microphone.map(str::to_owned),
            source_audio_path: None,
            width: Some(1280),
            height: Some(720),
            frame_rate: 30,
            audio_sample_rate: None,
            audio_channels: None,
            audio_sample_format: None,
            microphone_audio_sample_rate: Some(48_000),
            microphone_audio_channels: Some(2),
            microphone_audio_sample_format: Some("f32".to_owned()),
            source_audio_sample_rate: None,
            source_audio_channels: None,
            source_audio_sample_format: None,
            started_at: "100".to_owned(),
        },
        "100".to_owned(),
    )
}

#[test]
fn session_metadata_describes_the_capture() {
    let s = session("temp/recording-sessions/s9/screen_frames.mfrv", Some("temp/mic.raw"));
    let sidecar = session_sidecar(&s, None);
    assert_eq!(sidecar.session_id, "s9");
    assert_eq!(sidecar.recording_id, "rec-9");
    assert_eq!(sidecar.status, "capturing");
    assert_eq!(sidecar.video.format, "metafy raw BGRA frame stream v1");
    assert_eq!(sidecar.video.source.app_name.as_deref(), Some("Code"));
    assert_eq!(sidecar.video.current_source_dimensions, SessionResolution { width: Some(1280), height: Some(720) });
    assert_eq!(sidecar.video.normalization.policy, "scale_to_fit");
    assert_eq!(sidecar.video.normalization.padding, "centered_opaque_black");
    assert_eq!(sidecar.audio.mode, "microphone");
    let mic = sidecar.audio.microphone.expect("microphone stream");
    assert_eq!(mic.path, "temp/mic.raw");
    assert_eq!(mic.sample_rate, Some(48_000));
    assert_eq!(mic.sample_format.as_deref(), Some("f32"));
    assert_eq!(mic.format, "raw interleaved PCM bytes with block timing headers v1");
    assert!(sidecar.audio.source.is_none());
}

#[test]
fn session_metadata_records_source_dimensions_and_chunked_video() {
    let s = session("temp/recording-sessions/s9/screen_segments.mfcv", None);
    let sidecar = session_sidecar(&s, Some(VideoSourceDimensions { width: Some(2880), height: Some(1800) }));
    assert_eq!(sidecar.video.format, "metafy chunked H.264 segment manifest v1");
    assert_eq!(sidecar.video.output_dimensions, SessionResolution { width: Some(1280), height: Some(720) });
    assert_eq!(sidecar.video.current_source_dimensions, SessionResolution { width: Some(2880), height: Some(1800) });
    assert!(sidecar.audio.microphone.is_none());
}

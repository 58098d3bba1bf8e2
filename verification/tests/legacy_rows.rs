use metafy::storage::sessions::{recording_session_from_row, RecordingSessionRow};
use metafy::storage::{
    capture_selection_from_input, capture_selection_from_row, default_ai_settings_record,
    merge_ai_settings, read_ai_settings, save_ai_settings_step, CaptureAudioMode, RecordingSessionStatus, SaveAiSettingsInput,
    SaveCaptureSelectionInput, StorageError,
};

// A capture preferences row written before video sources and audio modes were stored: the
// new columns read as empty.
#[test]
fn reads_legacy_screen_source_selection_as_video_source() {
    let loaded = capture_selection_from_row(
        None,
        Some("display:7".to_owned()),
        Some("coreaudio:legacy-input".to_owned()),
        None,
        true,
        Some("1234".to_owned()),
    )
    .expect("load legacy capture selection");

    assert_eq!(loaded.video_source_id.as_deref(), Some("display:7"));
    assert_eq!(loaded.screen_source_id.as_deref(), Some("display:7"));
    assert_eq!(
        loaded.microphone_device_id.as_deref(),
        Some("coreaudio:legacy-input")
    );
    assert_eq!(loaded.audio_mode, CaptureAudioMode::Microphone);
    assert!(loaded.include_microphone);
}

// A session row written before audio was split per stream: the new columns hold their
// defaults and the audio is in the legacy columns.
#[test]
fn reads_legacy_audio_path_as_microphone_audio() {
    let row = RecordingSessionRow {
        id: "legacy-session".to_owned(),
        recording_id: "rec-legacy".to_owned(),
        status: RecordingSessionStatus::Stopped,
        temp_directory: "temp/recording-sessions/legacy-session".to_owned(),
        video_path: "temp/recording-sessions/legacy-session/screen_frames.mfrv".to_owned(),
        legacy_audio_path: Some("temp/recording-sessions/legacy-session/audio.pcm".to_owned()),
        metadata_path: "temp/recording-sessions/legacy-session/session.json".to_owned(),
        video_source_id: String::new(),
        screen_source_id: "display:7".to_owned(),
        video_source_kind: "display".to_owned(),
        video_source_title: String::new(),
        video_source_app_name: None,
        video_source_process_id: None,
        video_source_window_id: None,
        microphone_device_id: Some("mic:legacy".to_owned()),
        include_microphone: 1,
        audio_mode: CaptureAudioMode::Microphone,
        microphone_audio_path: None,
        source_audio_path: None,
        width: Some(640),
        height: Some(480),
        frame_rate: 30,
        frame_count: 5,
        legacy_audio_byte_count: 96,
        legacy_audio_sample_rate: Some(48_000),
        legacy_audio_channels: Some(2),
        legacy_audio_sample_format: Some("f32".to_owned()),
        microphone_audio_byte_count: 0,
        microphone_audio_sample_rate: None,
        microphone_audio_channels: None,
        microphone_audio_sample_format: None,
        source_audio_byte_count: 0,
        source_audio_sample_rate: None,
        source_audio_channels: None,
        source_audio_sample_format: None,
        started_at: "1234".to_owned(),
        stopped_at: None,
        duration_ms: None,
        failure_message: None,
        created_at: "1234".to_owned(),
        updated_at: "1235".to_owned(),
    };
    let loaded = recording_session_from_row(row);

    assert_eq!(loaded.video_source_id, "display:7");
    assert_eq!(loaded.audio_mode, CaptureAudioMode::Microphone);
    assert_eq!(
        loaded.microphone_audio_path.as_deref(),
        Some("temp/recording-sessions/legacy-session/audio.pcm")
    );
    assert!(loaded.source_audio_path.is_none());
    assert_eq!(loaded.microphone_audio_byte_count, 96);
    assert_eq!(loaded.microphone_audio_sample_rate, Some(48_000));
    assert_eq!(loaded.microphone_audio_channels, Some(2));
    assert_eq!(
        loaded.microphone_audio_sample_format.as_deref(),
        Some("f32")
    );
}

#[test]
fn persists_source_audio_mode_without_overloading_microphone_rows() {
    let saved = capture_selection_from_input(
        SaveCaptureSelectionInput {
            video_source_id: Some("window:9".to_owned()),
            screen_source_id: None,
            microphone_device_id: None,
            audio_mode: Some(CaptureAudioMode::Source),
            include_microphone: Some(true),
        },
        "200".to_owned(),
    );
    assert_eq!(saved.video_source_id.as_deref(), Some("window:9"));
    assert_eq!(saved.screen_source_id.as_deref(), Some("window:9"));
    assert_eq!(saved.audio_mode, CaptureAudioMode::Source);
    assert!(!saved.include_microphone);
    let loaded = capture_selection_from_row(
        saved.video_source_id.clone(),
        saved.screen_source_id.clone(),
        saved.microphone_device_id.clone(),
        Some(saved.audio_mode.as_str().to_owned()),
        saved.include_microphone,
        saved.updated_at.clone(),
    )
    .expect("read back");
    assert_eq!(loaded, saved);
}

#[test]
fn optional_ai_is_not_enabled_without_a_key() {
    let input = |key: Option<&str>| SaveAiSettingsInput {
        enabled: true,
        provider: Some("openai_compatible".to_owned()),
        model_name: Some("summary-model".to_owned()),
        endpoint_url: Some("https://api.openai.com/v1/chat/completions".to_owned()),
        api_key: key.map(str::to_owned),
        clear_api_key: None,
    };
    let refused = merge_ai_settings(default_ai_settings_record(), input(None), "300".to_owned());
    assert!(matches!(refused, Err(StorageError::InvalidInput(_))));
    let saved = merge_ai_settings(default_ai_settings_record(), input(Some("local-test-key")), "300".to_owned())
        .expect("saved");
    assert!(saved.enabled);
    assert_eq!(saved.model_name, "summary-model");
    assert_eq!(saved.updated_at.as_deref(), Some("300"));
    let shown = saved.public_settings();
    assert!(shown.has_api_key);
}

#[test]
fn keeps_optional_ai_disabled_until_configured() {
    let stored = None;
    let defaults = read_ai_settings(&stored);

    assert!(!defaults.enabled);
    assert_eq!(defaults.provider, "openai_compatible");
    assert_eq!(defaults.endpoint_url, "https://api.openai.com/v1/chat/completions");
    assert!(!defaults.has_api_key);
    assert!(defaults.updated_at.is_none());

    let (stored, missing_key) = save_ai_settings_step(
        stored,
        SaveAiSettingsInput {
            enabled: true,
            provider: Some("openai_compatible".to_owned()),
            model_name: Some("summary-model".to_owned()),
            endpoint_url: Some("https://api.openai.com/v1/chat/completions".to_owned()),
            api_key: None,
            clear_api_key: None,
        },
        "300".to_owned(),
    );
    assert!(missing_key.is_err());
    assert!(stored.is_none());
    assert_eq!(read_ai_settings(&stored), defaults);

    let (stored, saved) = save_ai_settings_step(
        stored,
        SaveAiSettingsInput {
            enabled: true,
            provider: Some("openai_compatible".to_owned()),
            model_name: Some("summary-model".to_owned()),
            endpoint_url: Some("https://api.openai.com/v1/chat/completions".to_owned()),
            api_key: Some("local-test-key".to_owned()),
            clear_api_key: None,
        },
        "301".to_owned(),
    );
    let saved = saved.expect("save ai settings");

    assert!(saved.enabled);
    assert_eq!(saved.model_name, "summary-model");
    assert!(saved.has_api_key);
    assert!(saved.updated_at.is_some());

    let loaded = read_ai_settings(&stored);

    assert!(loaded.enabled);
    assert_eq!(loaded.model_name, "summary-model");
    assert!(loaded.has_api_key);
    assert_eq!(loaded, saved);
}

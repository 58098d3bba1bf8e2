use metafy::commands::app_bootstrap;
use metafy::recorder::{session_with_snapshot, stopped_recording_update, ActiveRecordingSnapshot, AudioConfig, StoppedCapture};
use metafy::storage::sessions::{
    new_recording_session, CreateRecordingSessionInput, RecordingSessionFiles, StorageOverview,
    StoragePaths,
};
use metafy::storage::transcripts::{
    transcript_is_searchable, stored_segment_indices, transcript_identity,
    ai_summary_record, normalize_transcript_search_query, search_limit, segment_index,
    UpsertAiSummaryInput,
};
use metafy::storage::{
    AiStatus, CaptureAudioMode, RecordingSessionStatus, RecordingStatus, StorageError,
    TranscriptStatus,
};

#[test]
fn normalizes_transcript_search_queries() {
    assert_eq!(
        normalize_transcript_search_query("Decision-making, ROTATIONS!").as_deref(),
        Some("\"decision\" AND \"making\" AND \"rotations\"")
    );
    assert_eq!(normalize_transcript_search_query("snake_case 42").as_deref(), Some("\"snake_case\" AND \"42\""));
    assert_eq!(normalize_transcript_search_query("Überblick").as_deref(), Some("\"Überblick\""));
    assert_eq!(normalize_transcript_search_query("  -- !! "), None);
    assert_eq!(normalize_transcript_search_query(""), None);
}

#[test]
fn search_limits_are_clamped() {
    assert_eq!(search_limit(None), 50);
    assert_eq!(search_limit(Some(0)), 1);
    assert_eq!(search_limit(Some(-5)), 1);
    assert_eq!(search_limit(Some(10)), 10);
    assert_eq!(search_limit(Some(1_000)), 100);
    assert_eq!(segment_index(Some(7), 2), 7);
    assert_eq!(segment_index(None, 2), 2);
}

#[test]
fn ai_summary_upserts_keep_identity() {
    let input = UpsertAiSummaryInput {
        recording_id: "rec-1".to_owned(),
        status: AiStatus::Completed,
        model_name: Some("summary-model".to_owned()),
        summary_text: Some("Short summary.".to_owned()),
        action_items_json: Some("[]".to_owned()),
        decisions_json: None,
        questions_json: None,
        risks_json: None,
        chapters_json: None,
        completed_at: Some("2026-07-01T12:03:00Z".to_owned()),
        failure_message: None,
    };
    let first = ai_summary_record(None, "new-id".to_owned(), input.clone(), "T1".to_owned());
    assert_eq!(first.id, "new-id");
    assert_eq!(first.created_at, "T1");
    assert_eq!(first.updated_at, "T1");
    let again = ai_summary_record(
        Some((first.id.clone(), first.created_at.clone())),
        "other-id".to_owned(),
        input,
        "T2".to_owned(),
    );
    assert_eq!(again.id, "new-id");
    assert_eq!(again.created_at, "T1");
    assert_eq!(again.updated_at, "T2");
    assert_eq!(again.summary_text.as_deref(), Some("Short summary."));
}

fn files() -> RecordingSessionFiles {
    RecordingSessionFiles {
        video_path: "/data/v".to_owned(),
        microphone_audio_path: None,
        source_audio_path: None,
        metadata_path: "/data/m".to_owned(),
        temp_directory_relative: "temp".to_owned(),
        video_path_relative: "v".to_owned(),
        audio_path_relative: None,
        microphone_audio_path_relative: None,
        source_audio_path_relative: None,
        metadata_path_relative: "m".to_owned(),
    }
}

#[test]
fn stopped_captures_move_their_recording_on() {
    let mut stopped = StoppedCapture {
        session_id: "s1".to_owned(),
        recording_id: "rec-1".to_owned(),
        status: RecordingSessionStatus::Stopped,
        frame_count: 30,
        microphone_audio_byte_count: 0,
        source_audio_byte_count: 0,
        microphone_audio_config: None,
        source_audio_config: Some(AudioConfig {
            sample_rate: 48_000,
            channels: 2,
            sample_format: "f32".to_owned(),
        }),
        width: Some(1280),
        height: Some(720),
        source_width: None,
        source_height: None,
        stopped_at: "T9".to_owned(),
        duration_ms: 1_000,
        failure_message: None,
        files: files(),
    };
    let ok = stopped_recording_update(&stopped);
    assert_eq!(ok.status, Some(RecordingStatus::Processing));
    assert_eq!(ok.completed_at, None);
    assert_eq!(ok.duration_ms, Some(1_000));
    stopped.failure_message = Some("capture failed".to_owned());
    let failed = stopped_recording_update(&stopped);
    assert_eq!(failed.status, Some(RecordingStatus::Failed));
    assert_eq!(failed.completed_at.as_deref(), Some("T9"));
    assert_eq!(failed.failure_message.as_deref(), Some("capture failed"));
}

#[test]
fn active_sessions_show_the_live_counts() {
    let session = new_recording_session(
        CreateRecordingSessionInput {
            id: "s1".to_owned(),
            recording_id: "rec-1".to_owned(),
            temp_directory: "t".to_owned(),
            video_path: "t/v".to_owned(),
            audio_path: None,
            metadata_path: "t/m".to_owned(),
            video_source_id: "display:1".to_owned(),
            screen_source_id: "display:1".to_owned(),
            video_source_kind: "display".to_owned(),
            video_source_title: "Display 1".to_owned(),
            video_source_app_name: None,
            video_source_process_id: None,
            video_source_window_id: None,
            microphone_device_id: None,
            include_microphone: false,
            audio_mode: CaptureAudioMode::NoAudio,
            microphone_audio_path: None,
            source_audio_path: None,
            width: Some(640),
            height: Some(360),
            frame_rate: 30,
            audio_sample_rate: None,
            audio_channels: None,
            audio_sample_format: None,
            microphone_audio_sample_rate: None,
            microphone_audio_channels: None,
            microphone_audio_sample_format: None,
            source_audio_sample_rate: None,
            source_audio_channels: None,
            source_audio_sample_format: None,
            started_at: "T0".to_owned(),
        },
        "T0".to_owned(),
    );
    let live = session_with_snapshot(
        session,
        ActiveRecordingSnapshot {
            session_id: "s1".to_owned(),
            frame_count: 12,
            microphone_audio_byte_count: 0,
            source_audio_byte_count: 64,
            width: None,
            height: Some(720),
            duration_ms: 400,
            failure_message: None,
        },
    );
    assert_eq!(live.frame_count, 12);
    assert_eq!(live.source_audio_byte_count, 64);
    assert_eq!(live.width, Some(640));
    assert_eq!(live.height, Some(720));
    assert_eq!(live.duration_ms, Some(400));
}

#[test]
fn bootstrap_describes_a_local_only_app() {
    let paths = StoragePaths::new("/data".to_owned());
    let overview = StorageOverview {
        paths: paths.snapshot(),
        schema_version: 10,
        sqlite_initialized: true,
        tables: vec!["recordings".to_owned()],
        recording_count: 2,
        processing_job_count: 0,
    };
    let bootstrap = app_bootstrap(overview.clone());
    assert_eq!(bootstrap.app_name, "Metafy Desktop");
    assert_eq!(bootstrap.runtime.shell, "Tauri 2");
    assert!(!bootstrap.local_only.raw_media_leaves_device);
    assert_eq!(bootstrap.storage, overview);
    assert_eq!(bootstrap.native_boundaries.len(), 6);
    assert_eq!(bootstrap.native_boundaries[5].domain, "optional_ai");
    assert_eq!(bootstrap.available_commands.len(), 35);
    assert_eq!(bootstrap.available_commands[0], "app_bootstrap");
    assert_eq!(bootstrap.available_commands[34], "recording_asset_paths");
}

#[test]
fn storage_errors_read_as_their_messages() {
    assert_eq!(StorageError::Io("disk full".to_owned()).message(), "filesystem error: disk full");
    assert_eq!(StorageError::Database("locked".to_owned()).message(), "database error: locked");
    assert_eq!(StorageError::InvalidInput("bad title".to_owned()).message(), "bad title");
    assert_eq!(
        StorageError::NotFound { entity: "recording".to_owned(), id: "r1".to_owned() }.message(),
        "recording not found: r1"
    );
}

#[test]
fn only_completed_transcripts_are_indexed() {
    assert!(transcript_is_searchable(TranscriptStatus::Completed));
    assert!(!transcript_is_searchable(TranscriptStatus::Processing));
    assert!(!transcript_is_searchable(TranscriptStatus::Failed));
}

#[test]
fn rewritten_transcripts_keep_their_identity_and_renumber_segments() {
    assert_eq!(
        transcript_identity(
            Some(("tr-1".to_owned(), "100".to_owned())),
            "tr-2".to_owned(),
            "200".to_owned()
        ),
        ("tr-1".to_owned(), "100".to_owned())
    );
    assert_eq!(
        transcript_identity(None, "tr-2".to_owned(), "200".to_owned()),
        ("tr-2".to_owned(), "200".to_owned())
    );
    assert_eq!(stored_segment_indices(&vec![Some(7), None, Some(0), None]), vec![7, 1, 0, 3]);
    assert!(stored_segment_indices(&Vec::new()).is_empty());
}

use metafy::jobs::{
    claimed_job_action, claimed_job_failure_message, cleanup_file_names, has_incomplete_job,
    interrupted_capture_finish, interrupted_capture_indices, interrupted_capture_recording_update, recording_job_effect,
    required_recording_id, session_cleanup_plan, should_reschedule, start_job_update,
    ClaimedJobAction, JobKind, RecordingJobEffect, INTERRUPTED_CAPTURE_MESSAGE,
};
use metafy::transcription::recording_transcript_paths;
use metafy::storage::sessions::{
    new_recording_session, CreateRecordingSessionInput, RecordingSession, StoragePaths,
    StorageState,
};
use metafy::storage::{
    interrupt_running_jobs, CaptureAudioMode, JobState, ProcessingJob, Recording,
    RecordingSessionStatus, RecordingStatus,
};

fn job(kind: &str, state: JobState, recording_id: Option<&str>) -> ProcessingJob {
    ProcessingJob {
        id: "job-1".to_owned(),
        recording_id: recording_id.map(str::to_owned),
        kind: kind.to_owned(),
        state,
        priority: 20,
        attempts: 1,
        max_attempts: 3,
        input_json: None,
        output_json: None,
        error_message: None,
        interrupted: false,
        last_error_at: None,
        created_at: "2026-07-01T12:00:00Z".to_owned(),
        updated_at: "2026-07-01T12:00:00Z".to_owned(),
        started_at: None,
        completed_at: None,
    }
}

fn recording(status: RecordingStatus, media_path: Option<&str>) -> Recording {
    Recording {
        id: "rec-1".to_owned(),
        title: "Review".to_owned(),
        status,
        recording_directory: "recordings/rec-1".to_owned(),
        media_path: media_path.map(str::to_owned),
        thumbnail_path: None,
        duration_ms: Some(4_000),
        captured_at: None,
        created_at: "2026-07-01T12:00:00Z".to_owned(),
        updated_at: "2026-07-01T12:00:00Z".to_owned(),
        completed_at: None,
        failure_message: None,
    }
}

fn session(audio_path: Option<&str>, microphone: Option<&str>) -> RecordingSession {
    let dir = "temp/recording-sessions/s1";
    new_recording_session(
        CreateRecordingSessionInput {
            id: "s1".to_owned(),
            recording_id: "rec-1".to_owned(),
            temp_directory: dir.to_owned(),
            video_path: format!("{dir}/screen_frames.mfrv"),
            audio_path: audio_path.map(str::to_owned),
            metadata_path: format!("{dir}/session.json"),
            video_source_id: "display:1".to_owned(),
            screen_source_id: "display:1".to_owned(),
            video_source_kind: "display".to_owned(),
            video_source_title: "Display 1".to_owned(),
            video_source_app_name: None,
            video_source_process_id: None,
            video_source_window_id: None,
            microphone_device_id: None,
            include_microphone: microphone.is_some(),
            audio_mode: CaptureAudioMode::Microphone,
            microphone_audio_path: microphone.map(str::to_owned),
            source_audio_path: None,
            width: Some(1280),
            height: Some(720),
            frame_rate: 30,
            audio_sample_rate: None,
            audio_channels: None,
            audio_sample_format: None,
            microphone_audio_sample_rate: None,
            microphone_audio_channels: None,
            microphone_audio_sample_format: None,
            source_audio_sample_rate: None,
            source_audio_channels: None,
            source_audio_sample_format: None,
            started_at: "2026-07-01T12:00:00Z".to_owned(),
        },
        "2026-07-01T12:00:00Z".to_owned(),
    )
}

fn storage() -> StorageState {
    StorageState {
        paths: StoragePaths::new("/data".to_owned()),
    }
}

#[test]
fn claimed_jobs_run_or_fail_by_kind() {
    assert_eq!(claimed_job_action("encode_recording"), ClaimedJobAction::Encode);
    assert_eq!(claimed_job_action("transcribe_recording"), ClaimedJobAction::Transcribe);
    assert_eq!(claimed_job_action("ai_summary"), ClaimedJobAction::Summarize);
    assert_eq!(claimed_job_action("index_transcript"), ClaimedJobAction::Reindex);
    assert_eq!(claimed_job_action("clean_temp_files"), ClaimedJobAction::Cleanup);
    assert_eq!(claimed_job_action("run_whisper"), ClaimedJobAction::FailSubstep);
    assert_eq!(
        claimed_job_failure_message("generate_thumbnail").as_deref(),
        Some("This substep is retried through its parent recording job.")
    );
    assert_eq!(
        claimed_job_failure_message("mystery").as_deref(),
        Some("Unsupported processing job kind: mystery")
    );
    assert_eq!(claimed_job_failure_message("encode_recording"), None);
}

#[test]
fn job_kinds_round_trip_through_their_names() {
    for kind in [
        JobKind::EncodeRecording,
        JobKind::ExtractAudio,
        JobKind::RunWhisper,
        JobKind::IndexTranscript,
        JobKind::GenerateThumbnail,
        JobKind::AiSummary,
        JobKind::CleanTempFiles,
        JobKind::TranscribeRecording,
    ] {
        assert_eq!(JobKind::parse(kind.as_str()), Some(kind));
    }
    assert_eq!(JobKind::parse("Encode_Recording"), None);
}

#[test]
fn retried_and_interrupted_jobs_touch_their_recording_part() {
    assert_eq!(recording_job_effect("encode_recording"), RecordingJobEffect::Encoding);
    assert_eq!(recording_job_effect("extract_audio"), RecordingJobEffect::Transcript);
    assert_eq!(recording_job_effect("run_whisper"), RecordingJobEffect::Transcript);
    assert_eq!(recording_job_effect("transcribe_recording"), RecordingJobEffect::Transcript);
    assert_eq!(recording_job_effect("ai_summary"), RecordingJobEffect::AiSummary);
    assert_eq!(recording_job_effect("clean_temp_files"), RecordingJobEffect::Nothing);
}

#[test]
fn incomplete_jobs_are_queued_or_running_of_the_kind() {
    let jobs = vec![
        job("encode_recording", JobState::Failed, Some("rec-1")),
        job("ai_summary", JobState::Running, Some("rec-1")),
    ];
    assert!(!has_incomplete_job(&jobs, "encode_recording"));
    assert!(has_incomplete_job(&jobs, "ai_summary"));
    let queued = vec![job("encode_recording", JobState::Queued, Some("rec-1"))];
    assert!(has_incomplete_job(&queued, "encode_recording"));
}

#[test]
fn jobs_start_with_one_more_attempt_and_need_a_recording() {
    let update = start_job_update(&job("encode_recording", JobState::Queued, None));
    assert_eq!(update.state, Some(JobState::Running));
    assert_eq!(update.attempts, Some(2));
    assert_eq!(update.interrupted, Some(false));
    assert_eq!(
        required_recording_id(&job("encode_recording", JobState::Queued, None)).unwrap_err(),
        "encode_recording job is missing a recording id."
    );
    assert_eq!(
        required_recording_id(&job("ai_summary", JobState::Queued, Some("rec-9"))).unwrap(),
        "rec-9"
    );
}

#[test]
fn interrupted_captures_fail_their_session_and_recording() {
    let s = session(None, None);
    let finish = interrupted_capture_finish(&s, "2026-07-01T12:05:00Z".to_owned());
    assert_eq!(finish.status, RecordingSessionStatus::Failed);
    assert_eq!(finish.duration_ms, 0);
    assert_eq!(finish.failure_message.as_deref(), Some(INTERRUPTED_CAPTURE_MESSAGE));
    let update = interrupted_capture_recording_update(
        &recording(RecordingStatus::Capturing, None),
        "2026-07-01T12:05:00Z".to_owned(),
    );
    assert_eq!(update.status, Some(RecordingStatus::Failed));
    assert_eq!(update.duration_ms, Some(4_000));
    assert_eq!(update.completed_at.as_deref(), Some("2026-07-01T12:05:00Z"));
}

#[test]
fn stopped_unencoded_recordings_are_rescheduled() {
    let processing = recording(RecordingStatus::Processing, None);
    assert!(should_reschedule(&processing, Some(RecordingSessionStatus::Stopped), false));
    assert!(!should_reschedule(&processing, Some(RecordingSessionStatus::Stopped), true));
    assert!(!should_reschedule(&processing, Some(RecordingSessionStatus::Failed), false));
    assert!(!should_reschedule(&processing, None, false));
    let encoded = recording(RecordingStatus::Processing, Some("recordings/rec-1/recording.mp4"));
    assert!(!should_reschedule(&encoded, Some(RecordingSessionStatus::Stopped), false));
}

#[test]
fn cleanup_removes_temp_files_only_for_verified_media() {
    assert_eq!(cleanup_file_names().len(), 8);
    let store = storage();
    let completed = recording(RecordingStatus::Completed, Some("recordings/rec-1/recording.mp4"));
    let plan = session_cleanup_plan(&store, &completed, &session(None, None), true);
    assert_eq!(
        plan.remove_temp_directory.as_deref(),
        Some("/data/temp/recording-sessions/s1")
    );
    assert!(plan.preserved_paths.is_empty());

    let mic = "temp/recording-sessions/s1/microphone.pcm";
    let kept = session_cleanup_plan(&store, &completed, &session(Some(mic), Some(mic)), false);
    assert!(kept.remove_temp_directory.is_none());
    assert_eq!(
        kept.preserved_paths,
        vec![
            "/data/temp/recording-sessions/s1",
            "/data/temp/recording-sessions/s1/screen_frames.mfrv",
            "/data/temp/recording-sessions/s1/microphone.pcm",
            "/data/temp/recording-sessions/s1/session.json",
        ]
    );
}

#[test]
fn startup_recovery_leaves_no_running_job() {
    let jobs = vec![
        job("encode_recording", JobState::Running, Some("rec-1")),
        job("ai_summary", JobState::Queued, Some("rec-1")),
        job("run_whisper", JobState::Succeeded, Some("rec-1")),
    ];
    let message = "Job was interrupted because the app stopped before it completed.".to_owned();
    let recovered = interrupt_running_jobs(jobs, &message, &"100".to_owned());
    assert_eq!(recovered.len(), 3);
    assert_eq!(recovered[0].state, JobState::Failed);
    assert!(recovered[0].interrupted);
    assert_eq!(recovered[0].error_message.as_deref(), Some(message.as_str()));
    assert_eq!(recovered[0].completed_at.as_deref(), Some("100"));
    assert_eq!(recovered[1], job("ai_summary", JobState::Queued, Some("rec-1")));
    assert_eq!(recovered[2], job("run_whisper", JobState::Succeeded, Some("rec-1")));
    assert!(recovered.iter().all(|j| j.state != JobState::Running));
}

#[test]
fn completed_recordings_with_media_get_transcript_paths() {
    let paths = recording_transcript_paths(
        &storage(),
        &recording(RecordingStatus::Completed, Some("recordings/rec-1/recording.mp4")),
    )
    .expect("transcript paths");
    assert_eq!(paths.media_path, "/data/recordings/rec-1/recording.mp4");
    assert_eq!(paths.recording_directory, "/data/recordings/rec-1");
    assert_eq!(paths.audio_path, "/data/recordings/rec-1/transcript-audio.wav");
    assert_eq!(paths.raw_json_path_relative, "recordings/rec-1/transcript.json");
    assert_eq!(paths.raw_json_path, "/data/recordings/rec-1/transcript.json");
    assert!(recording_transcript_paths(&storage(), &recording(RecordingStatus::Completed, None)).is_err());
    assert!(recording_transcript_paths(
        &storage(),
        &recording(RecordingStatus::Processing, Some("recordings/rec-1/recording.mp4"))
    )
    .is_err());
}

#[test]
fn stored_paths_resolve_by_the_platform_rules() {
    let state = storage();
    assert_eq!(state.resolve_path("recordings/rec-1"), "/data/recordings/rec-1");
    assert_eq!(state.resolve_path("/elsewhere/x"), "/elsewhere/x");
    assert_eq!(state.resolve_path("C:/x"), "/data/C:/x");
}

#[test]
fn startup_recovery_ends_exactly_the_running_captures() {
    let capturing = session(None, None);
    assert_eq!(capturing.status, RecordingSessionStatus::Capturing);
    let mut stopped = session(None, None);
    stopped.status = RecordingSessionStatus::Stopped;
    let mut failed = session(None, None);
    failed.status = RecordingSessionStatus::Failed;
    let sessions = vec![
        Some(capturing.clone()),
        None,
        Some(stopped),
        Some(capturing),
        Some(failed),
    ];
    assert_eq!(interrupted_capture_indices(&sessions), vec![0, 3]);
    assert!(interrupted_capture_indices(&Vec::new()).is_empty());
}

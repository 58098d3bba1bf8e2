use metafy::capture::{
    CaptureAudioConfig, CaptureVideoSource, CaptureVideoSourceKind, ValidatedCaptureConfig,
};
use metafy::platform::PlatformBackend;
use metafy::recorder::{AudioConfig, StartedCapture};
use metafy::session_control::{
    ensure_runtime_idle, recording_session_input, runtime_start, runtime_stop, session_start_step,
    RuntimeSlot, SessionStartAction, SessionStartEvent, SessionStartPhase, SessionStartPlan,
    SessionStartState,
};
use metafy::storage::sessions::{new_recording_session, StoragePaths, StorageState};
use metafy::storage::{new_recording, CaptureAudioMode, CreateRecordingInput, RecordingStatus};

fn window() -> CaptureVideoSource {
    CaptureVideoSource {
        id: "window:42".to_owned(),
        kind: CaptureVideoSourceKind::Window,
        title: "Editor".to_owned(),
        app_name: Some("Code".to_owned()),
        process_id: Some(7),
        window_id: Some(42),
        primary: false,
    }
}

fn plan() -> SessionStartPlan {
    let state = StorageState { paths: StoragePaths::new("/data".to_owned()) };
    SessionStartPlan {
        title: Some("Standup".to_owned()),
        config: ValidatedCaptureConfig {
            video_source: window(),
            screen_source: window(),
            audio: CaptureAudioConfig { mode: CaptureAudioMode::NoAudio, microphone: None, source_audio: None },
            microphone: None,
            include_microphone: false,
        },
        files: state.recording_session_files("s1", CaptureAudioMode::NoAudio, PlatformBackend::Linux),
        session_id: "s1".to_owned(),
        started_at: "100".to_owned(),
    }
}

fn start() -> SessionStartState {
    SessionStartState { phase: SessionStartPhase::NotStarted, recording: None, session: None, capture_error: None }
}

#[test]
fn one_capture_runs_at_a_time() {
    let p = plan();
    let recording = new_recording("rec-1".to_owned(), CreateRecordingInput { title: None, captured_at: None, media_path: None }, "1".to_owned());
    let session = new_recording_session(recording_session_input(&p.config, &p.files, "s1".to_owned(), recording.id.clone(), "100".to_owned()), "100".to_owned());
    assert!(ensure_runtime_idle(&RuntimeSlot::Idle).is_ok());
    let active = runtime_start(&RuntimeSlot::Idle, &session).unwrap();
    assert_eq!(active, RuntimeSlot::Active { session_id: "s1".to_owned(), recording_id: "rec-1".to_owned() });
    assert_eq!(ensure_runtime_idle(&active), Err("A recording session is already active.".to_owned()));
    assert_eq!(runtime_start(&active, &session), Err("A recording session is already active.".to_owned()));
    assert_eq!(runtime_stop(&RuntimeSlot::Idle, None), Err("No recording session is active.".to_owned()));
    assert_eq!(runtime_stop(&active, Some("rec-2")), Err("The active recording session does not match this recording.".to_owned()));
    assert_eq!(runtime_stop(&active, Some("rec-1")), Ok(("s1".to_owned(), "rec-1".to_owned())));
    assert_eq!(runtime_stop(&active, None), Ok(("s1".to_owned(), "rec-1".to_owned())));
}

#[test]
fn session_rows_come_from_the_validated_capture() {
    let p = plan();
    let input = recording_session_input(&p.config, &p.files, "s1".to_owned(), "rec-1".to_owned(), "100".to_owned());
    assert_eq!(input.video_source_id, "window:42");
    assert_eq!(input.video_source_kind, "window");
    assert_eq!(input.video_source_process_id, Some(7));
    assert_eq!(input.video_source_window_id, Some(42));
    assert_eq!(input.temp_directory, "temp/recording-sessions/s1");
    assert_eq!(input.audio_mode, CaptureAudioMode::NoAudio);
    assert_eq!(input.frame_rate, 30);
    assert!(input.width.is_none());
}

#[test]
fn a_session_start_runs_its_steps_in_order() {
    let p = plan();
    let (state, action) = session_start_step(&p, start(), SessionStartEvent::Begin);
    let SessionStartAction::CreateRecording(create) = action else { panic!("create recording") };
    assert_eq!(create.captured_at.as_deref(), Some("100"));
    let recording = new_recording("rec-1".to_owned(), create, "100".to_owned());
    let (state, action) = session_start_step(&p, state, SessionStartEvent::RecordingCreated(recording.clone()));
    let SessionStartAction::UpdateRecording(update) = action else { panic!("mark capturing") };
    assert_eq!(update.status, Some(RecordingStatus::Capturing));
    let (state, action) = session_start_step(&p, state, SessionStartEvent::RecordingUpdated(recording));
    let SessionStartAction::CreateSession(input) = action else { panic!("create session") };
    assert_eq!(input.recording_id, "rec-1");
    let session = new_recording_session(input, "100".to_owned());
    let (state, action) = session_start_step(&p, state, SessionStartEvent::SessionCreated(session.clone()));
    assert!(matches!(action, SessionStartAction::WriteMetadata));
    let (state, action) = session_start_step(&p, state, SessionStartEvent::MetadataWritten);
    assert!(matches!(action, SessionStartAction::StartCapture));
    let started = StartedCapture {
        width: Some(1280),
        height: Some(720),
        microphone_audio_config: None,
        source_audio_config: Some(AudioConfig { sample_rate: 48_000, channels: 2, sample_format: "f32".to_owned() }),
    };
    let (state, action) = session_start_step(&p, state, SessionStartEvent::CaptureStarted(started));
    let SessionStartAction::RecordCaptureDetails(details) = action else { panic!("details") };
    assert_eq!(details.width, Some(1280));
    assert_eq!(details.source_audio_sample_rate, Some(48_000));
    assert!(details.microphone_audio_sample_rate.is_none());
    let (state, action) = session_start_step(&p, state, SessionStartEvent::DetailsRecorded(session));
    assert!(matches!(action, SessionStartAction::WriteMetadata));
    let (state, action) = session_start_step(&p, state, SessionStartEvent::MetadataWritten);
    assert_eq!(state.phase, SessionStartPhase::Finished);
    let SessionStartAction::Reply(Ok(envelope)) = action else { panic!("reply") };
    assert_eq!(envelope.recording.id, "rec-1");
    assert_eq!(envelope.session.id, "s1");
}

fn at_metadata_write(p: &SessionStartPlan) -> SessionStartState {
    let (state, _) = session_start_step(p, start(), SessionStartEvent::Begin);
    let recording = new_recording("rec-1".to_owned(), CreateRecordingInput { title: None, captured_at: None, media_path: None }, "1".to_owned());
    let (state, _) = session_start_step(p, state, SessionStartEvent::RecordingCreated(recording.clone()));
    let (state, action) = session_start_step(p, state, SessionStartEvent::RecordingUpdated(recording));
    let SessionStartAction::CreateSession(input) = action else { panic!("create session") };
    let (state, _) = session_start_step(p, state, SessionStartEvent::SessionCreated(new_recording_session(input, "1".to_owned())));
    state
}

#[test]
fn failed_metadata_or_capture_fails_the_created_session() {
    let p = plan();
    let (state, action) = session_start_step(&p, at_metadata_write(&p), SessionStartEvent::Failed("disk full".to_owned()));
    let SessionStartAction::FailCreated(error) = action else { panic!("fail created") };
    assert_eq!(error, "disk full");
    let (_, action) = session_start_step(&p, state, SessionStartEvent::FailureRecorded);
    let SessionStartAction::Reply(Err(reply)) = action else { panic!("reply") };
    assert_eq!(reply, "Unable to persist recording session metadata.");

    let (state, _) = session_start_step(&p, at_metadata_write(&p), SessionStartEvent::MetadataWritten);
    let (state, action) = session_start_step(&p, state, SessionStartEvent::Failed("no permission".to_owned()));
    assert!(matches!(action, SessionStartAction::FailCreated(ref e) if e == "no permission"));
    let (_, action) = session_start_step(&p, state, SessionStartEvent::FailureRecorded);
    let SessionStartAction::Reply(Err(reply)) = action else { panic!("reply") };
    assert_eq!(reply, "no permission");

    let (_, action) = session_start_step(&p, start(), SessionStartEvent::MetadataWritten);
    assert!(matches!(action, SessionStartAction::Reply(Err(_))));
}

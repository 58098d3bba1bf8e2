//! Starting and stopping a capture session: at most one capture runs at a time, a stop names
//! the running capture, and starting a session goes through a fixed sequence of store and
//! capture steps, undoing what was created when the metadata cannot be written or the capture
//! cannot start. The application performs each step and reports what came of it.
use vstd::prelude::*;
use vstd::string::*;

use crate::capture::ValidatedCaptureConfig;
use crate::commands::RecordingSessionEnvelope;
use crate::recorder::{frame_rate, AudioConfig, StartedCapture, StoppedCapture, CAPTURE_FRAME_RATE};
use crate::storage::sessions::{
    CreateRecordingSessionInput, FinishRecordingSessionInput, RecordingSession,
    RecordingSessionFiles, SessionCaptureDetails,
};
use crate::storage::{
    clone_opt_string, CreateRecordingInput, Recording, RecordingSessionStatus, RecordingStatus,
    UpdateRecordingInput,
};

verus! {

pub const ALREADY_ACTIVE_ERROR: &'static str = "A recording session is already active.";

pub const NOTHING_ACTIVE_ERROR: &'static str = "No recording session is active.";

pub const OTHER_RECORDING_ERROR: &'static str =
    "The active recording session does not match this recording.";

pub const METADATA_FAILED_REPLY: &'static str = "Unable to persist recording session metadata.";

pub const UNEXPECTED_STEP_ERROR: &'static str =
    "Recording session start received a step out of order.";

/// The capture runtime: idle, or running the capture of one session.
#[derive(Debug, Clone, PartialEq, Eq)]
pub enum RuntimeSlot {
    Idle,
    Active { session_id: String, recording_id: String },
}

/// Why a new capture may not start, or none when it may: only an idle runtime starts one.
pub open spec fn start_refusal(slot: RuntimeSlot) -> Option<Seq<char>> {
    match slot {
        RuntimeSlot::Idle => None,
        RuntimeSlot::Active { .. } => Some(ALREADY_ACTIVE_ERROR@),
    }
}

/// The runtime while the capture of `session` runs.
pub open spec fn running(session: RecordingSession) -> RuntimeSlot {
    RuntimeSlot::Active { session_id: session.id, recording_id: session.recording_id }
}

/// Why a stop is refused, or none when it ends the running capture: refused when nothing
/// runs, or when it names a recording other than the running one.
pub open spec fn stop_refusal(slot: RuntimeSlot, recording_id: Option<Seq<char>>) -> Option<
    Seq<char>,
> {
    match slot {
        RuntimeSlot::Idle => Some(NOTHING_ACTIVE_ERROR@),
        RuntimeSlot::Active { session_id, recording_id: active } => match recording_id {
            Some(id) => if id != active@ {
                Some(OTHER_RECORDING_ERROR@)
            } else {
                None
            },
            None => None,
        },
    }
}

pub open spec fn opt_str_view(value: Option<&str>) -> Option<Seq<char>> {
    match value {
        Some(s) => Some(s@),
        None => None,
    }
}

/// Whether a new capture may start: only when none is running.
pub fn ensure_runtime_idle(slot: &RuntimeSlot) -> (r: Result<(), String>)
    ensures
        r is Ok <==> start_refusal(*slot) is None,
        r matches Err(e) ==> Some(e@) == start_refusal(*slot),
{
    match slot {
        RuntimeSlot::Idle => Ok(()),
        RuntimeSlot::Active { .. } => Err(String::from_str(ALREADY_ACTIVE_ERROR)),
    }
}

/// The runtime once the capture of `session` starts; refused while another capture runs.
pub fn runtime_start(slot: &RuntimeSlot, session: &RecordingSession) -> (r: Result<
    RuntimeSlot,
    String,
>)
    ensures
        match start_refusal(*slot) {
            Some(message) => r matches Err(e) && e@ == message,
            None => r == Ok::<RuntimeSlot, String>(running(*session)),
        },
{
    match slot {
        RuntimeSlot::Idle => Ok(
            RuntimeSlot::Active {
                session_id: session.id.clone(),
                recording_id: session.recording_id.clone(),
            },
        ),
        RuntimeSlot::Active { .. } => Err(String::from_str(ALREADY_ACTIVE_ERROR)),
    }
}

/// The session and recording ids of the capture a stop ends (the runtime is then idle):
/// refused when none runs, or when the stop names another recording.
pub fn runtime_stop(slot: &RuntimeSlot, recording_id: Option<&str>) -> (r: Result<
    (String, String),
    String,
>)
    ensures
        match stop_refusal(*slot, opt_str_view(recording_id)) {
            Some(message) => r matches Err(e) && e@ == message,
            None => r == Ok::<(String, String), String>(
                (slot->Active_session_id, slot->Active_recording_id),
            ),
        },
{
    match slot {
        RuntimeSlot::Idle => Err(String::from_str(NOTHING_ACTIVE_ERROR)),
        RuntimeSlot::Active { session_id, recording_id: active } => {
            if let Some(id) = recording_id {
                if !crate::text::str_equals(id, active.as_str()) {
                    return Err(String::from_str(OTHER_RECORDING_ERROR));
                }
            }
            Ok((session_id.clone(), active.clone()))
        },
    }
}

/// At most one capture runs: an idle runtime starts the capture of any session; while it
/// runs, a second start is refused, a stop that names its recording (or none) ends it and
/// gives back its session and recording, and a stop that names another recording is
/// refused.
pub proof fn lemma_one_capture_at_a_time(session: RecordingSession, other: Seq<char>)
    requires
        other != session.recording_id@,
    ensures
        start_refusal(RuntimeSlot::Idle) is None,
        start_refusal(running(session)) == Some(ALREADY_ACTIVE_ERROR@),
        stop_refusal(running(session), Some(session.recording_id@)) is None,
        stop_refusal(running(session), None) is None,
        running(session)->Active_session_id == session.id,
        running(session)->Active_recording_id == session.recording_id,
        stop_refusal(running(session), Some(other)) == Some(OTHER_RECORDING_ERROR@),
        stop_refusal(RuntimeSlot::Idle, Some(session.recording_id@)) == Some(NOTHING_ACTIVE_ERROR@),
{
}

pub open spec fn spec_id_of_u32(value: Option<u32>) -> Option<i64> {
    match value {
        Some(v) => Some(v as i64),
        None => None,
    }
}

fn id_of_u32(value: Option<u32>) -> (r: Option<i64>)
    ensures
        r == spec_id_of_u32(value),
{
    match value {
        Some(v) => Some(v as i64),
        None => None,
    }
}

/// The session row of a capture about to start: the validated sources, microphone and audio
/// mode, the prepared files (relative to the data root), the capture frame rate, and no size
/// or audio format yet (those are learned once the capture starts).
pub fn recording_session_input(
    config: &ValidatedCaptureConfig,
    files: &RecordingSessionFiles,
    id: String,
    recording_id: String,
    started_at: String,
) -> (r: CreateRecordingSessionInput)
    ensures
        r == (CreateRecordingSessionInput {
            id,
            recording_id,
            temp_directory: files.temp_directory_relative,
            video_path: files.video_path_relative,
            audio_path: files.audio_path_relative,
            metadata_path: files.metadata_path_relative,
            video_source_id: config.video_source.id,
            screen_source_id: config.screen_source.id,
            video_source_kind: r.video_source_kind,
            video_source_title: config.video_source.title,
            video_source_app_name: config.video_source.app_name,
            video_source_process_id: spec_id_of_u32(config.video_source.process_id),
            video_source_window_id: spec_id_of_u32(config.video_source.window_id),
            microphone_device_id: match config.microphone {
                Some(m) => Some(m.id),
                None => None,
            },
            include_microphone: config.include_microphone,
            audio_mode: config.audio.mode,
            microphone_audio_path: files.microphone_audio_path_relative,
            source_audio_path: files.source_audio_path_relative,
            width: None,
            height: None,
            frame_rate: CAPTURE_FRAME_RATE as i64,
            audio_sample_rate: None,
            audio_channels: None,
            audio_sample_format: None,
            microphone_audio_sample_rate: None,
            microphone_audio_channels: None,
            microphone_audio_sample_format: None,
            source_audio_sample_rate: None,
            source_audio_channels: None,
            source_audio_sample_format: None,
            started_at,
        }),
        r.video_source_kind@ == config.video_source.kind.spec_label(),
{
    CreateRecordingSessionInput {
        id,
        recording_id,
        temp_directory: files.temp_directory_relative.clone(),
        video_path: files.video_path_relative.clone(),
        audio_path: clone_opt_string(&files.audio_path_relative),
        metadata_path: files.metadata_path_relative.clone(),
        video_source_id: config.video_source.id.clone(),
        screen_source_id: config.screen_source.id.clone(),
        video_source_kind: String::from_str(config.video_source.kind.label()),
        video_source_title: config.video_source.title.clone(),
        video_source_app_name: clone_opt_string(&config.video_source.app_name),
        video_source_process_id: id_of_u32(config.video_source.process_id),
        video_source_window_id: id_of_u32(config.video_source.window_id),
        microphone_device_id: match &config.microphone {
            Some(m) => Some(m.id.clone()),
            None => None,
        },
        include_microphone: config.include_microphone,
        audio_mode: config.audio.mode,
        microphone_audio_path: clone_opt_string(&files.microphone_audio_path_relative),
        source_audio_path: clone_opt_string(&files.source_audio_path_relative),
        width: None,
        height: None,
        frame_rate: frame_rate(),
        audio_sample_rate: None,
        audio_channels: None,
        audio_sample_format: None,
        microphone_audio_sample_rate: None,
        microphone_audio_channels: None,
        microphone_audio_sample_format: None,
        source_audio_sample_rate: None,
        source_audio_channels: None,
        source_audio_sample_format: None,
        started_at,
    }
}

pub open spec fn rate_of(config: Option<AudioConfig>) -> Option<i64> {
    match config {
        Some(c) => Some(c.sample_rate),
        None => None,
    }
}

pub open spec fn channels_of(config: Option<AudioConfig>) -> Option<i64> {
    match config {
        Some(c) => Some(c.channels),
        None => None,
    }
}

pub open spec fn format_of(config: Option<AudioConfig>) -> Option<String> {
    match config {
        Some(c) => Some(c.sample_format),
        None => None,
    }
}

fn audio_fields(config: &Option<AudioConfig>) -> (r: (Option<i64>, Option<i64>, Option<String>))
    ensures
        r == (rate_of(*config), channels_of(*config), format_of(*config)),
{
    match config {
        Some(c) => (Some(c.sample_rate), Some(c.channels), Some(c.sample_format.clone())),
        None => (None, None, None),
    }
}

/// The details a started capture reports: its size, and each audio stream's format (the
/// session's single legacy audio fields are the microphone's).
pub fn capture_details(started: &StartedCapture) -> (r: SessionCaptureDetails)
    ensures
        r == (SessionCaptureDetails {
            width: started.width,
            height: started.height,
            audio_sample_rate: rate_of(started.microphone_audio_config),
            audio_channels: channels_of(started.microphone_audio_config),
            audio_sample_format: format_of(started.microphone_audio_config),
            microphone_audio_sample_rate: rate_of(started.microphone_audio_config),
            microphone_audio_channels: channels_of(started.microphone_audio_config),
            microphone_audio_sample_format: format_of(started.microphone_audio_config),
            source_audio_sample_rate: rate_of(started.source_audio_config),
            source_audio_channels: channels_of(started.source_audio_config),
            source_audio_sample_format: format_of(started.source_audio_config),
        }),
{
    let (mic_rate, mic_channels, mic_format) = audio_fields(&started.microphone_audio_config);
    let (legacy_rate, legacy_channels, legacy_format) = audio_fields(
        &started.microphone_audio_config,
    );
    let (source_rate, source_channels, source_format) = audio_fields(&started.source_audio_config);
    SessionCaptureDetails {
        width: started.width,
        height: started.height,
        audio_sample_rate: legacy_rate,
        audio_channels: legacy_channels,
        audio_sample_format: legacy_format,
        microphone_audio_sample_rate: mic_rate,
        microphone_audio_channels: mic_channels,
        microphone_audio_sample_format: mic_format,
        source_audio_sample_rate: source_rate,
        source_audio_channels: source_channels,
        source_audio_sample_format: source_format,
    }
}

/// How a stopped capture finishes its session: its status, size, counts, each audio stream's
/// format (the legacy audio fields are the microphone's), stop time, duration and failure.
pub fn stopped_session_finish(stopped: &StoppedCapture) -> (r: FinishRecordingSessionInput)
    ensures
        r == (FinishRecordingSessionInput {
            id: stopped.session_id,
            status: stopped.status,
            width: stopped.width,
            height: stopped.height,
            frame_count: stopped.frame_count,
            audio_byte_count: stopped.microphone_audio_byte_count,
            audio_sample_rate: rate_of(stopped.microphone_audio_config),
            audio_channels: channels_of(stopped.microphone_audio_config),
            audio_sample_format: format_of(stopped.microphone_audio_config),
            microphone_audio_byte_count: stopped.microphone_audio_byte_count,
            microphone_audio_sample_rate: rate_of(stopped.microphone_audio_config),
            microphone_audio_channels: channels_of(stopped.microphone_audio_config),
            microphone_audio_sample_format: format_of(stopped.microphone_audio_config),
            source_audio_byte_count: stopped.source_audio_byte_count,
            source_audio_sample_rate: rate_of(stopped.source_audio_config),
            source_audio_channels: channels_of(stopped.source_audio_config),
            source_audio_sample_format: format_of(stopped.source_audio_config),
            stopped_at: stopped.stopped_at,
            duration_ms: stopped.duration_ms,
            failure_message: stopped.failure_message,
        }),
{
    let (mic_rate, mic_channels, mic_format) = audio_fields(&stopped.microphone_audio_config);
    let (legacy_rate, legacy_channels, legacy_format) = audio_fields(
        &stopped.microphone_audio_config,
    );
    let (source_rate, source_channels, source_format) = audio_fields(&stopped.source_audio_config);
    FinishRecordingSessionInput {
        id: stopped.session_id.clone(),
        status: stopped.status,
        width: stopped.width,
        height: stopped.height,
        frame_count: stopped.frame_count,
        audio_byte_count: stopped.microphone_audio_byte_count,
        audio_sample_rate: legacy_rate,
        audio_channels: legacy_channels,
        audio_sample_format: legacy_format,
        microphone_audio_byte_count: stopped.microphone_audio_byte_count,
        microphone_audio_sample_rate: mic_rate,
        microphone_audio_channels: mic_channels,
        microphone_audio_sample_format: mic_format,
        source_audio_byte_count: stopped.source_audio_byte_count,
        source_audio_sample_rate: source_rate,
        source_audio_channels: source_channels,
        source_audio_sample_format: source_format,
        stopped_at: stopped.stopped_at.clone(),
        duration_ms: stopped.duration_ms,
        failure_message: clone_opt_string(&stopped.failure_message),
    }
}

/// Whether a stopped session goes on to be encoded: only when it stopped cleanly.
pub fn encode_after_stop(status: RecordingSessionStatus) -> (r: bool)
    ensures
        r == (status == RecordingSessionStatus::Stopped),
{
    status == RecordingSessionStatus::Stopped
}

/// How a session that was created but could not capture is finished: failed, with nothing
/// captured, at `stopped_at`, with `error`.
pub fn failed_session_finish(session_id: String, error: String, stopped_at: String) -> (r:
    FinishRecordingSessionInput)
    ensures
        r == (FinishRecordingSessionInput {
            id: session_id,
            status: RecordingSessionStatus::Failed,
            width: None,
            height: None,
            frame_count: 0,
            audio_byte_count: 0,
            audio_sample_rate: None,
            audio_channels: None,
            audio_sample_format: None,
            microphone_audio_byte_count: 0,
            microphone_audio_sample_rate: None,
            microphone_audio_channels: None,
            microphone_audio_sample_format: None,
            source_audio_byte_count: 0,
            source_audio_sample_rate: None,
            source_audio_channels: None,
            source_audio_sample_format: None,
            stopped_at,
            duration_ms: 0,
            failure_message: Some(error),
        }),
{
    FinishRecordingSessionInput {
        id: session_id,
        status: RecordingSessionStatus::Failed,
        width: None,
        height: None,
        frame_count: 0,
        audio_byte_count: 0,
        audio_sample_rate: None,
        audio_channels: None,
        audio_sample_format: None,
        microphone_audio_byte_count: 0,
        microphone_audio_sample_rate: None,
        microphone_audio_channels: None,
        microphone_audio_sample_format: None,
        source_audio_byte_count: 0,
        source_audio_sample_rate: None,
        source_audio_channels: None,
        source_audio_sample_format: None,
        stopped_at,
        duration_ms: 0,
        failure_message: Some(error),
    }
}

/// How the recording of a session that could not capture is updated: failed, of no duration,
/// completed at `stopped_at`, with `error`.
pub fn failed_recording_update(recording_id: String, error: String, stopped_at: String) -> (r:
    UpdateRecordingInput)
    ensures
        r == (UpdateRecordingInput {
            id: recording_id,
            title: None,
            status: Some(RecordingStatus::Failed),
            media_path: None,
            thumbnail_path: None,
            duration_ms: Some(0),
            captured_at: None,
            completed_at: Some(stopped_at),
            failure_message: Some(error),
        }),
{
    UpdateRecordingInput {
        id: recording_id,
        title: None,
        status: Some(RecordingStatus::Failed),
        media_path: None,
        thumbnail_path: None,
        duration_ms: Some(0),
        captured_at: None,
        completed_at: Some(stopped_at),
        failure_message: Some(error),
    }
}

/// Where the start of a capture session stands.
#[derive(Debug, Clone, Copy, PartialEq, Eq, Structural)]
pub enum SessionStartPhase {
    NotStarted,
    CreatingRecording,
    MarkingCapturing,
    CreatingSession,
    WritingMetadata,
    StartingCapture,
    RecordingDetails,
    WritingFinalMetadata,
    FailingCreated,
    Finished,
}

/// What a session start works from: the recording's title, the validated capture, the prepared
/// session files, the new session's id and the start time.
#[derive(Debug)]
pub struct SessionStartPlan {
    pub title: Option<String>,
    pub config: ValidatedCaptureConfig,
    pub files: RecordingSessionFiles,
    pub session_id: String,
    pub started_at: String,
}

/// The progress of a session start: its phase, the recording and session created so far, and,
/// while a created session is being failed after its capture could not start, the capture's
/// error (none when it is failed because its metadata could not be written).
#[derive(Debug)]
pub struct SessionStartState {
    pub phase: SessionStartPhase,
    pub recording: Option<Recording>,
    pub session: Option<RecordingSession>,
    pub capture_error: Option<String>,
}

/// What came of the last step.
#[derive(Debug)]
pub enum SessionStartEvent {
    Begin,
    RecordingCreated(Recording),
    RecordingUpdated(Recording),
    SessionCreated(RecordingSession),
    MetadataWritten,
    CaptureStarted(StartedCapture),
    DetailsRecorded(RecordingSession),
    FailureRecorded,
    Failed(String),
}

/// The next step: a store or capture operation on the state's recording and session, or the
/// reply to the start request.
#[derive(Debug)]
pub enum SessionStartAction {
    CreateRecording(CreateRecordingInput),
    UpdateRecording(UpdateRecordingInput),
    CreateSession(CreateRecordingSessionInput),
    /// Write the metadata document of the state's session.
    WriteMetadata,
    /// Start capturing the state's session with the plan's configuration and files.
    StartCapture,
    /// Store these capture details on the state's session.
    RecordCaptureDetails(SessionCaptureDetails),
    /// Fail the state's session and recording with this error, and write the session's
    /// metadata.
    FailCreated(String),
    Reply(Result<RecordingSessionEnvelope, String>),
}

/// The session row made for a start: the session input of the plan for `recording_id`.
pub open spec fn is_session_input_of(
    input: CreateRecordingSessionInput,
    plan: SessionStartPlan,
    recording_id: String,
) -> bool {
    &&& input == (CreateRecordingSessionInput {
        id: plan.session_id,
        recording_id,
        temp_directory: plan.files.temp_directory_relative,
        video_path: plan.files.video_path_relative,
        audio_path: plan.files.audio_path_relative,
        metadata_path: plan.files.metadata_path_relative,
        video_source_id: plan.config.video_source.id,
        screen_source_id: plan.config.screen_source.id,
        video_source_kind: input.video_source_kind,
        video_source_title: plan.config.video_source.title,
        video_source_app_name: plan.config.video_source.app_name,
        video_source_process_id: spec_id_of_u32(plan.config.video_source.process_id),
        video_source_window_id: spec_id_of_u32(plan.config.video_source.window_id),
        microphone_device_id: match plan.config.microphone {
            Some(m) => Some(m.id),
            None => None,
        },
        include_microphone: plan.config.include_microphone,
        audio_mode: plan.config.audio.mode,
        microphone_audio_path: plan.files.microphone_audio_path_relative,
        source_audio_path: plan.files.source_audio_path_relative,
        width: None,
        height: None,
        frame_rate: CAPTURE_FRAME_RATE as i64,
        audio_sample_rate: None,
        audio_channels: None,
        audio_sample_format: None,
        microphone_audio_sample_rate: None,
        microphone_audio_channels: None,
        microphone_audio_sample_format: None,
        source_audio_sample_rate: None,
        source_audio_channels: None,
        source_audio_sample_format: None,
        started_at: plan.started_at,
    })
    &&& input.video_source_kind@ == plan.config.video_source.kind.spec_label()
}

/// A finished start that replies `reply`.
pub open spec fn finished_with(
    r: (SessionStartState, SessionStartAction),
    reply: Result<RecordingSessionEnvelope, String>,
) -> bool {
    &&& r.0.phase == SessionStartPhase::Finished
    &&& r.0.recording is None
    &&& r.0.session is None
    &&& r.0.capture_error is None
    &&& r.1 == SessionStartAction::Reply(reply)
}

/// A finished start that replies with an error whose text is `message`.
pub open spec fn finished_with_error(r: (SessionStartState, SessionStartAction), message: Seq<
    char,
>) -> bool {
    &&& r.0.phase == SessionStartPhase::Finished
    &&& r.0.recording is None
    &&& r.0.session is None
    &&& r.0.capture_error is None
    &&& r.1 matches SessionStartAction::Reply(Err(e)) && e@ == message
}

/// One step of starting a capture session. The sequence: create the recording; mark it
/// capturing; create the session from the plan; write its metadata; start the capture; store
/// the capture details; write the metadata again; reply with the recording and session. When
/// the first metadata write fails, the created recording and session are failed with its error
/// and the reply is that the metadata could not be persisted; when the capture cannot start,
/// they are failed with the capture's error, which is the reply (or the error of failing them,
/// if that fails too). Any other failed step ends the start with its error.
pub fn session_start_step(
    plan: &SessionStartPlan,
    state: SessionStartState,
    event: SessionStartEvent,
) -> (r: (SessionStartState, SessionStartAction))
    ensures
        match event {
            SessionStartEvent::Begin => if state.phase == SessionStartPhase::NotStarted {
                &&& r.0 == (SessionStartState {
                    phase: SessionStartPhase::CreatingRecording,
                    recording: None,
                    session: None,
                    capture_error: None,
                })
                &&& r.1 == SessionStartAction::CreateRecording(
                    CreateRecordingInput {
                        title: plan.title,
                        captured_at: Some(plan.started_at),
                        media_path: None,
                    },
                )
            } else {
                finished_with_error(r, UNEXPECTED_STEP_ERROR@)
            },
            SessionStartEvent::RecordingCreated(recording) => if state.phase
                == SessionStartPhase::CreatingRecording {
                &&& r.0 == (SessionStartState {
                    phase: SessionStartPhase::MarkingCapturing,
                    recording: Some(recording),
                    session: None,
                    capture_error: None,
                })
                &&& r.1 == SessionStartAction::UpdateRecording(
                    UpdateRecordingInput {
                        id: recording.id,
                        title: None,
                        status: Some(RecordingStatus::Capturing),
                        media_path: None,
                        thumbnail_path: None,
                        duration_ms: None,
                        captured_at: recording.captured_at,
                        completed_at: None,
                        failure_message: None,
                    },
                )
            } else {
                finished_with_error(r, UNEXPECTED_STEP_ERROR@)
            },
            SessionStartEvent::RecordingUpdated(recording) => if state.phase
                == SessionStartPhase::MarkingCapturing {
                &&& r.0 == (SessionStartState {
                    phase: SessionStartPhase::CreatingSession,
                    recording: Some(recording),
                    session: None,
                    capture_error: None,
                })
                &&& r.1 matches SessionStartAction::CreateSession(input) && is_session_input_of(
                    input,
                    *plan,
                    recording.id,
                )
            } else {
                finished_with_error(r, UNEXPECTED_STEP_ERROR@)
            },
            SessionStartEvent::SessionCreated(session) => if state.phase
                == SessionStartPhase::CreatingSession {
                &&& r.0 == (SessionStartState {
                    phase: SessionStartPhase::WritingMetadata,
                    recording: state.recording,
                    session: Some(session),
                    capture_error: None,
                })
                &&& r.1 == SessionStartAction::WriteMetadata
            } else {
                finished_with_error(r, UNEXPECTED_STEP_ERROR@)
            },
            SessionStartEvent::MetadataWritten => if state.phase
                == SessionStartPhase::WritingMetadata {
                &&& r.0 == (SessionStartState {
                    phase: SessionStartPhase::StartingCapture,
                    ..state
                })
                &&& r.1 == SessionStartAction::StartCapture
            } else if state.phase == SessionStartPhase::WritingFinalMetadata {
                match (state.recording, state.session) {
                    (Some(recording), Some(session)) => finished_with(
                        r,
                        Ok(RecordingSessionEnvelope { recording, session }),
                    ),
                    _ => finished_with_error(r, UNEXPECTED_STEP_ERROR@),
                }
            } else {
                finished_with_error(r, UNEXPECTED_STEP_ERROR@)
            },
            SessionStartEvent::CaptureStarted(started) => if state.phase
                == SessionStartPhase::StartingCapture {
                &&& r.0 == (SessionStartState {
                    phase: SessionStartPhase::RecordingDetails,
                    ..state
                })
                &&& r.1 matches SessionStartAction::RecordCaptureDetails(details) && details
                    == (SessionCaptureDetails {
                    width: started.width,
                    height: started.height,
                    audio_sample_rate: rate_of(started.microphone_audio_config),
                    audio_channels: channels_of(started.microphone_audio_config),
                    audio_sample_format: format_of(started.microphone_audio_config),
                    microphone_audio_sample_rate: rate_of(started.microphone_audio_config),
                    microphone_audio_channels: channels_of(started.microphone_audio_config),
                    microphone_audio_sample_format: format_of(started.microphone_audio_config),
                    source_audio_sample_rate: rate_of(started.source_audio_config),
                    source_audio_channels: channels_of(started.source_audio_config),
                    source_audio_sample_format: format_of(started.source_audio_config),
                })
            } else {
                finished_with_error(r, UNEXPECTED_STEP_ERROR@)
            },
            SessionStartEvent::DetailsRecorded(session) => if state.phase
                == SessionStartPhase::RecordingDetails {
                &&& r.0 == (SessionStartState {
                    phase: SessionStartPhase::WritingFinalMetadata,
                    recording: state.recording,
                    session: Some(session),
                    capture_error: None,
                })
                &&& r.1 == SessionStartAction::WriteMetadata
            } else {
                finished_with_error(r, UNEXPECTED_STEP_ERROR@)
            },
            SessionStartEvent::FailureRecorded => if state.phase
                == SessionStartPhase::FailingCreated {
                match state.capture_error {
                    Some(error) => finished_with(r, Err(error)),
                    None => finished_with_error(r, METADATA_FAILED_REPLY@),
                }
            } else {
                finished_with_error(r, UNEXPECTED_STEP_ERROR@)
            },
            SessionStartEvent::Failed(error) => if state.phase
                == SessionStartPhase::WritingMetadata {
                &&& r.0 == (SessionStartState {
                    phase: SessionStartPhase::FailingCreated,
                    capture_error: None,
                    ..state
                })
                &&& r.1 == SessionStartAction::FailCreated(error)
            } else if state.phase == SessionStartPhase::StartingCapture {
                &&& r.0 == (SessionStartState {
                    phase: SessionStartPhase::FailingCreated,
                    capture_error: Some(error),
                    ..state
                })
                &&& r.1 == SessionStartAction::FailCreated(error)
            } else if state.phase == SessionStartPhase::FailingCreated {
                match state.capture_error {
                    Some(_) => finished_with(r, Err(error)),
                    None => finished_with_error(r, METADATA_FAILED_REPLY@),
                }
            } else {
                finished_with(r, Err(error))
            },
        },
{
    let phase = state.phase;
    match event {
        SessionStartEvent::Begin => {
            if phase == SessionStartPhase::NotStarted {
                (
                    SessionStartState {
                        phase: SessionStartPhase::CreatingRecording,
                        recording: None,
                        session: None,
                        capture_error: None,
                    },
                    SessionStartAction::CreateRecording(
                        CreateRecordingInput {
                            title: clone_opt_string(&plan.title),
                            captured_at: Some(plan.started_at.clone()),
                            media_path: None,
                        },
                    ),
                )
            } else {
                unexpected_step()
            }
        },
        SessionStartEvent::RecordingCreated(recording) => {
            if phase == SessionStartPhase::CreatingRecording {
                let update = UpdateRecordingInput {
                    id: recording.id.clone(),
                    title: None,
                    status: Some(RecordingStatus::Capturing),
                    media_path: None,
                    thumbnail_path: None,
                    duration_ms: None,
                    captured_at: clone_opt_string(&recording.captured_at),
                    completed_at: None,
                    failure_message: None,
                };
                (
                    SessionStartState {
                        phase: SessionStartPhase::MarkingCapturing,
                        recording: Some(recording),
                        session: None,
                        capture_error: None,
                    },
                    SessionStartAction::UpdateRecording(update),
                )
            } else {
                unexpected_step()
            }
        },
        SessionStartEvent::RecordingUpdated(recording) => {
            if phase == SessionStartPhase::MarkingCapturing {
                let input = recording_session_input(
                    &plan.config,
                    &plan.files,
                    plan.session_id.clone(),
                    recording.id.clone(),
                    plan.started_at.clone(),
                );
                (
                    SessionStartState {
                        phase: SessionStartPhase::CreatingSession,
                        recording: Some(recording),
                        session: None,
                        capture_error: None,
                    },
                    SessionStartAction::CreateSession(input),
                )
            } else {
                unexpected_step()
            }
        },
        SessionStartEvent::SessionCreated(session) => {
            if phase == SessionStartPhase::CreatingSession {
                (
                    SessionStartState {
                        phase: SessionStartPhase::WritingMetadata,
                        recording: state.recording,
                        session: Some(session),
                        capture_error: None,
                    },
                    SessionStartAction::WriteMetadata,
                )
            } else {
                unexpected_step()
            }
        },
        SessionStartEvent::MetadataWritten => {
            if phase == SessionStartPhase::WritingMetadata {
                (
                    SessionStartState { phase: SessionStartPhase::StartingCapture, ..state },
                    SessionStartAction::StartCapture,
                )
            } else if phase == SessionStartPhase::WritingFinalMetadata {
                match (state.recording, state.session) {
                    (Some(recording), Some(session)) => finished(
                        Ok(RecordingSessionEnvelope { recording, session }),
                    ),
                    _ => unexpected_step(),
                }
            } else {
                unexpected_step()
            }
        },
        SessionStartEvent::CaptureStarted(started) => {
            if phase == SessionStartPhase::StartingCapture {
                let details = capture_details(&started);
                (
                    SessionStartState { phase: SessionStartPhase::RecordingDetails, ..state },
                    SessionStartAction::RecordCaptureDetails(details),
                )
            } else {
                unexpected_step()
            }
        },
        SessionStartEvent::DetailsRecorded(session) => {
            if phase == SessionStartPhase::RecordingDetails {
                (
                    SessionStartState {
                        phase: SessionStartPhase::WritingFinalMetadata,
                        recording: state.recording,
                        session: Some(session),
                        capture_error: None,
                    },
                    SessionStartAction::WriteMetadata,
                )
            } else {
                unexpected_step()
            }
        },
        SessionStartEvent::FailureRecorded => {
            if phase == SessionStartPhase::FailingCreated {
                match state.capture_error {
                    Some(error) => finished(Err(error)),
                    None => finished(Err(String::from_str(METADATA_FAILED_REPLY))),
                }
            } else {
                unexpected_step()
            }
        },
        SessionStartEvent::Failed(error) => {
            if phase == SessionStartPhase::WritingMetadata {
                (
                    SessionStartState {
                        phase: SessionStartPhase::FailingCreated,
                        capture_error: None,
                        ..state
                    },
                    SessionStartAction::FailCreated(error),
                )
            } else if phase == SessionStartPhase::StartingCapture {
                let reply = error.clone();
                (
                    SessionStartState {
                        phase: SessionStartPhase::FailingCreated,
                        capture_error: Some(reply),
                        ..state
                    },
                    SessionStartAction::FailCreated(error),
                )
            } else if phase == SessionStartPhase::FailingCreated {
                match state.capture_error {
                    Some(_) => finished(Err(error)),
                    None => finished(Err(String::from_str(METADATA_FAILED_REPLY))),
                }
            } else {
                finished(Err(error))
            }
        },
    }
}

fn finished(reply: Result<RecordingSessionEnvelope, String>) -> (r: (
    SessionStartState,
    SessionStartAction,
))
    ensures
        finished_with(r, reply),
{
    (
        SessionStartState {
            phase: SessionStartPhase::Finished,
            recording: None,
            session: None,
            capture_error: None,
        },
        SessionStartAction::Reply(reply),
    )
}

fn unexpected_step() -> (r: (SessionStartState, SessionStartAction))
    ensures
        finished_with_error(r, UNEXPECTED_STEP_ERROR@),
{
    finished(Err(String::from_str(UNEXPECTED_STEP_ERROR)))
}

} // verus!

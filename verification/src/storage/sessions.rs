//! Recording sessions: the rows kept for one capture, how legacy rows are read, and where a
//! session's files live.
use vstd::prelude::*;
use vstd::string::*;

use crate::media::chunked_video::{chunked_manifest_relative_path, spec_chunked_manifest_relative_path};
use crate::paths::{is_absolute_path, join_path, spec_is_absolute_path, spec_join_path};
use crate::platform::PlatformBackend;
use crate::storage::{
    clone_opt_string, first_present, opt_view, CaptureAudioMode, Recording,
    RecordingSessionStatus, RECORDINGS_DIRECTORY_NAME, RECORDING_SESSIONS_DIRECTORY_NAME,
    TEMP_DIRECTORY_NAME, DATABASE_FILE_NAME,
};

verus! {

pub const MODELS_DIRECTORY_NAME: &'static str = "models";

pub const WHISPER_MODELS_DIRECTORY_NAME: &'static str = "whisper";

/// One capture of a recording.
#[derive(Debug, Clone, PartialEq, Eq)]
pub struct RecordingSession {
    pub id: String,
    pub recording_id: String,
    pub status: RecordingSessionStatus,
    pub temp_directory: String,
    pub video_path: String,
    pub audio_path: Option<String>,
    pub metadata_path: String,
    pub video_source_id: String,
    pub screen_source_id: String,
    pub video_source_kind: String,
    pub video_source_title: String,
    pub video_source_app_name: Option<String>,
    pub video_source_process_id: Option<i64>,
    pub video_source_window_id: Option<i64>,
    pub microphone_device_id: Option<String>,
    pub include_microphone: bool,
    pub audio_mode: CaptureAudioMode,
    pub microphone_audio_path: Option<String>,
    pub source_audio_path: Option<String>,
    pub width: Option<i64>,
    pub height: Option<i64>,
    pub frame_rate: i64,
    pub frame_count: i64,
    pub audio_byte_count: i64,
    pub audio_sample_rate: Option<i64>,
    pub audio_channels: Option<i64>,
    pub audio_sample_format: Option<String>,
    pub microphone_audio_byte_count: i64,
    pub microphone_audio_sample_rate: Option<i64>,
    pub microphone_audio_channels: Option<i64>,
    pub microphone_audio_sample_format: Option<String>,
    pub source_audio_byte_count: i64,
    pub source_audio_sample_rate: Option<i64>,
    pub source_audio_channels: Option<i64>,
    pub source_audio_sample_format: Option<String>,
    pub started_at: String,
    pub stopped_at: Option<String>,
    pub duration_ms: Option<i64>,
    pub failure_message: Option<String>,
    pub created_at: String,
    pub updated_at: String,
}

/// A request to record a new capture.
#[derive(Debug, Clone, PartialEq, Eq)]
pub struct CreateRecordingSessionInput {
    pub id: String,
    pub recording_id: String,
    pub temp_directory: String,
    pub video_path: String,
    pub audio_path: Option<String>,
    pub metadata_path: String,
    pub video_source_id: String,
    pub screen_source_id: String,
    pub video_source_kind: String,
    pub video_source_title: String,
    pub video_source_app_name: Option<String>,
    pub video_source_process_id: Option<i64>,
    pub video_source_window_id: Option<i64>,
    pub microphone_device_id: Option<String>,
    pub include_microphone: bool,
    pub audio_mode: CaptureAudioMode,
    pub microphone_audio_path: Option<String>,
    pub source_audio_path: Option<String>,
    pub width: Option<i64>,
    pub height: Option<i64>,
    pub frame_rate: i64,
    pub audio_sample_rate: Option<i64>,
    pub audio_channels: Option<i64>,
    pub audio_sample_format: Option<String>,
    pub microphone_audio_sample_rate: Option<i64>,
    pub microphone_audio_channels: Option<i64>,
    pub microphone_audio_sample_format: Option<String>,
    pub source_audio_sample_rate: Option<i64>,
    pub source_audio_channels: Option<i64>,
    pub source_audio_sample_format: Option<String>,
    pub started_at: String,
}

/// What a capture reports when it ends.
#[derive(Debug, Clone, PartialEq, Eq)]
pub struct FinishRecordingSessionInput {
    pub id: String,
    pub status: RecordingSessionStatus,
    pub width: Option<i64>,
    pub height: Option<i64>,
    pub frame_count: i64,
    pub audio_byte_count: i64,
    pub audio_sample_rate: Option<i64>,
    pub audio_channels: Option<i64>,
    pub audio_sample_format: Option<String>,
    pub microphone_audio_byte_count: i64,
    pub microphone_audio_sample_rate: Option<i64>,
    pub microphone_audio_channels: Option<i64>,
    pub microphone_audio_sample_format: Option<String>,
    pub source_audio_byte_count: i64,
    pub source_audio_sample_rate: Option<i64>,
    pub source_audio_channels: Option<i64>,
    pub source_audio_sample_format: Option<String>,
    pub stopped_at: String,
    pub duration_ms: i64,
    pub failure_message: Option<String>,
}

/// The row a new session is stored as: capturing, nothing counted yet, not stopped.
pub fn new_recording_session(input: CreateRecordingSessionInput, now: String) -> (r:
    RecordingSession)
    ensures
        r == (RecordingSession {
            id: input.id,
            recording_id: input.recording_id,
            status: RecordingSessionStatus::Capturing,
            temp_directory: input.temp_directory,
            video_path: input.video_path,
            audio_path: input.audio_path,
            metadata_path: input.metadata_path,
            video_source_id: input.video_source_id,
            screen_source_id: input.screen_source_id,
            video_source_kind: input.video_source_kind,
            video_source_title: input.video_source_title,
            video_source_app_name: input.video_source_app_name,
            video_source_process_id: input.video_source_process_id,
            video_source_window_id: input.video_source_window_id,
            microphone_device_id: input.microphone_device_id,
            include_microphone: input.include_microphone,
            audio_mode: input.audio_mode,
            microphone_audio_path: input.microphone_audio_path,
            source_audio_path: input.source_audio_path,
            width: input.width,
            height: input.height,
            frame_rate: input.frame_rate,
            frame_count: 0,
            audio_byte_count: 0,
            audio_sample_rate: input.audio_sample_rate,
            audio_channels: input.audio_channels,
            audio_sample_format: input.audio_sample_format,
            microphone_audio_byte_count: 0,
            microphone_audio_sample_rate: input.microphone_audio_sample_rate,
            microphone_audio_channels: input.microphone_audio_channels,
            microphone_audio_sample_format: input.microphone_audio_sample_format,
            source_audio_byte_count: 0,
            source_audio_sample_rate: input.source_audio_sample_rate,
            source_audio_channels: input.source_audio_channels,
            source_audio_sample_format: input.source_audio_sample_format,
            started_at: input.started_at,
            stopped_at: None,
            duration_ms: None,
            failure_message: None,
            created_at: now,
            updated_at: now,
        }),
{
    RecordingSession {
        id: input.id,
        recording_id: input.recording_id,
        status: RecordingSessionStatus::Capturing,
        temp_directory: input.temp_directory,
        video_path: input.video_path,
        audio_path: input.audio_path,
        metadata_path: input.metadata_path,
        video_source_id: input.video_source_id,
        screen_source_id: input.screen_source_id,
        video_source_kind: input.video_source_kind,
        video_source_title: input.video_source_title,
        video_source_app_name: input.video_source_app_name,
        video_source_process_id: input.video_source_process_id,
        video_source_window_id: input.video_source_window_id,
        microphone_device_id: input.microphone_device_id,
        include_microphone: input.include_microphone,
        audio_mode: input.audio_mode,
        microphone_audio_path: input.microphone_audio_path,
        source_audio_path: input.source_audio_path,
        width: input.width,
        height: input.height,
        frame_rate: input.frame_rate,
        frame_count: 0,
        audio_byte_count: 0,
        audio_sample_rate: input.audio_sample_rate,
        audio_channels: input.audio_channels,
        audio_sample_format: input.audio_sample_format,
        microphone_audio_byte_count: 0,
        microphone_audio_sample_rate: input.microphone_audio_sample_rate,
        microphone_audio_channels: input.microphone_audio_channels,
        microphone_audio_sample_format: input.microphone_audio_sample_format,
        source_audio_byte_count: 0,
        source_audio_sample_rate: input.source_audio_sample_rate,
        source_audio_channels: input.source_audio_channels,
        source_audio_sample_format: input.source_audio_sample_format,
        started_at: input.started_at,
        stopped_at: None,
        duration_ms: None,
        failure_message: None,
        created_at: now.clone(),
        updated_at: now,
    }
}

fn or_i64(preferred: Option<i64>, fallback: Option<i64>) -> (r: Option<i64>)
    ensures
        r == first_present(preferred, fallback),
{
    match preferred {
        Some(v) => Some(v),
        None => fallback,
    }
}

fn or_string(preferred: Option<String>, fallback: Option<String>) -> (r: Option<String>)
    ensures
        r == first_present(preferred, fallback),
{
    match preferred {
        Some(v) => Some(v),
        None => fallback,
    }
}

/// The capture details learned once a capture started; each one given replaces the stored
/// one, the others are kept.
#[derive(Debug, Clone, PartialEq, Eq)]
pub struct SessionCaptureDetails {
    pub width: Option<i64>,
    pub height: Option<i64>,
    pub audio_sample_rate: Option<i64>,
    pub audio_channels: Option<i64>,
    pub audio_sample_format: Option<String>,
    pub microphone_audio_sample_rate: Option<i64>,
    pub microphone_audio_channels: Option<i64>,
    pub microphone_audio_sample_format: Option<String>,
    pub source_audio_sample_rate: Option<i64>,
    pub source_audio_channels: Option<i64>,
    pub source_audio_sample_format: Option<String>,
}

pub fn session_with_capture_details(
    existing: RecordingSession,
    details: SessionCaptureDetails,
    now: String,
) -> (r: RecordingSession)
    ensures
        r == (RecordingSession {
            width: first_present(details.width, existing.width),
            height: first_present(details.height, existing.height),
            audio_sample_rate: first_present(details.audio_sample_rate, existing.audio_sample_rate),
            audio_channels: first_present(details.audio_channels, existing.audio_channels),
            audio_sample_format: first_present(
                details.audio_sample_format,
                existing.audio_sample_format,
            ),
            microphone_audio_sample_rate: first_present(
                details.microphone_audio_sample_rate,
                existing.microphone_audio_sample_rate,
            ),
            microphone_audio_channels: first_present(
                details.microphone_audio_channels,
                existing.microphone_audio_channels,
            ),
            microphone_audio_sample_format: first_present(
                details.microphone_audio_sample_format,
                existing.microphone_audio_sample_format,
            ),
            source_audio_sample_rate: first_present(
                details.source_audio_sample_rate,
                existing.source_audio_sample_rate,
            ),
            source_audio_channels: first_present(
                details.source_audio_channels,
                existing.source_audio_channels,
            ),
            source_audio_sample_format: first_present(
                details.source_audio_sample_format,
                existing.source_audio_sample_format,
            ),
            updated_at: now,
            ..existing
        }),
{
    RecordingSession {
        width: or_i64(details.width, existing.width),
        height: or_i64(details.height, existing.height),
        audio_sample_rate: or_i64(details.audio_sample_rate, existing.audio_sample_rate),
        audio_channels: or_i64(details.audio_channels, existing.audio_channels),
        audio_sample_format: or_string(details.audio_sample_format, existing.audio_sample_format),
        microphone_audio_sample_rate: or_i64(
            details.microphone_audio_sample_rate,
            existing.microphone_audio_sample_rate,
        ),
        microphone_audio_channels: or_i64(
            details.microphone_audio_channels,
            existing.microphone_audio_channels,
        ),
        microphone_audio_sample_format: or_string(
            details.microphone_audio_sample_format,
            existing.microphone_audio_sample_format,
        ),
        source_audio_sample_rate: or_i64(
            details.source_audio_sample_rate,
            existing.source_audio_sample_rate,
        ),
        source_audio_channels: or_i64(details.source_audio_channels, existing.source_audio_channels),
        source_audio_sample_format: or_string(
            details.source_audio_sample_format,
            existing.source_audio_sample_format,
        ),
        updated_at: now,
        ..existing
    }
}

/// The row after a capture ends: its status, counts, stop time, duration and failure replace
/// the stored ones; sizes and audio formats given replace the stored ones, the others are kept.
pub fn finished_session(existing: RecordingSession, input: FinishRecordingSessionInput, now: String) -> (r:
    RecordingSession)
    ensures
        r == (RecordingSession {
            status: input.status,
            width: first_present(input.width, existing.width),
            height: first_present(input.height, existing.height),
            frame_count: input.frame_count,
            audio_byte_count: input.audio_byte_count,
            audio_sample_rate: first_present(input.audio_sample_rate, existing.audio_sample_rate),
            audio_channels: first_present(input.audio_channels, existing.audio_channels),
            audio_sample_format: first_present(
                input.audio_sample_format,
                existing.audio_sample_format,
            ),
            microphone_audio_byte_count: input.microphone_audio_byte_count,
            microphone_audio_sample_rate: first_present(
                input.microphone_audio_sample_rate,
                existing.microphone_audio_sample_rate,
            ),
            microphone_audio_channels: first_present(
                input.microphone_audio_channels,
                existing.microphone_audio_channels,
            ),
            microphone_audio_sample_format: first_present(
                input.microphone_audio_sample_format,
                existing.microphone_audio_sample_format,
            ),
            source_audio_byte_count: input.source_audio_byte_count,
            source_audio_sample_rate: first_present(
                input.source_audio_sample_rate,
                existing.source_audio_sample_rate,
            ),
            source_audio_channels: first_present(
                input.source_audio_channels,
                existing.source_audio_channels,
            ),
            source_audio_sample_format: first_present(
                input.source_audio_sample_format,
                existing.source_audio_sample_format,
            ),
            stopped_at: Some(input.stopped_at),
            duration_ms: Some(input.duration_ms),
            failure_message: input.failure_message,
            updated_at: now,
            ..existing
        }),
{
    RecordingSession {
        status: input.status,
        width: or_i64(input.width, existing.width),
        height: or_i64(input.height, existing.height),
        frame_count: input.frame_count,
        audio_byte_count: input.audio_byte_count,
        audio_sample_rate: or_i64(input.audio_sample_rate, existing.audio_sample_rate),
        audio_channels: or_i64(input.audio_channels, existing.audio_channels),
        audio_sample_format: or_string(input.audio_sample_format, existing.audio_sample_format),
        microphone_audio_byte_count: input.microphone_audio_byte_count,
        microphone_audio_sample_rate: or_i64(
            input.microphone_audio_sample_rate,
            existing.microphone_audio_sample_rate,
        ),
        microphone_audio_channels: or_i64(
            input.microphone_audio_channels,
            existing.microphone_audio_channels,
        ),
        microphone_audio_sample_format: or_string(
            input.microphone_audio_sample_format,
            existing.microphone_audio_sample_format,
        ),
        source_audio_byte_count: input.source_audio_byte_count,
        source_audio_sample_rate: or_i64(
            input.source_audio_sample_rate,
            existing.source_audio_sample_rate,
        ),
        source_audio_channels: or_i64(input.source_audio_channels, existing.source_audio_channels),
        source_audio_sample_format: or_string(
            input.source_audio_sample_format,
            existing.source_audio_sample_format,
        ),
        stopped_at: Some(input.stopped_at),
        duration_ms: Some(input.duration_ms),
        failure_message: input.failure_message,
        updated_at: now,
        ..existing
    }
}

/// A stream's byte count as stored, or the legacy single-stream count when the stream has a
/// file but counted nothing.
pub open spec fn spec_fallback_stream_byte_count(
    stream_byte_count: i64,
    has_stream_path: bool,
    legacy_byte_count: i64,
) -> i64 {
    if stream_byte_count == 0 && has_stream_path && legacy_byte_count > 0 {
        legacy_byte_count
    } else {
        stream_byte_count
    }
}

pub fn fallback_stream_byte_count(
    stream_byte_count: i64,
    stream_path: Option<&str>,
    legacy_byte_count: i64,
) -> (r: i64)
    ensures
        r == spec_fallback_stream_byte_count(
            stream_byte_count,
            stream_path is Some,
            legacy_byte_count,
        ),
{
    if stream_byte_count == 0 && stream_path.is_some() && legacy_byte_count > 0 {
        legacy_byte_count
    } else {
        stream_byte_count
    }
}

/// The columns of a stored session row, as stored (sessions from before split audio keep a
/// single audio path and format).
#[derive(Debug, Clone, PartialEq, Eq)]
pub struct RecordingSessionRow {
    pub id: String,
    pub recording_id: String,
    pub status: RecordingSessionStatus,
    pub temp_directory: String,
    pub video_path: String,
    pub legacy_audio_path: Option<String>,
    pub metadata_path: String,
    pub video_source_id: String,
    pub screen_source_id: String,
    pub video_source_kind: String,
    pub video_source_title: String,
    pub video_source_app_name: Option<String>,
    pub video_source_process_id: Option<i64>,
    pub video_source_window_id: Option<i64>,
    pub microphone_device_id: Option<String>,
    pub include_microphone: i64,
    pub audio_mode: CaptureAudioMode,
    pub microphone_audio_path: Option<String>,
    pub source_audio_path: Option<String>,
    pub width: Option<i64>,
    pub height: Option<i64>,
    pub frame_rate: i64,
    pub frame_count: i64,
    pub legacy_audio_byte_count: i64,
    pub legacy_audio_sample_rate: Option<i64>,
    pub legacy_audio_channels: Option<i64>,
    pub legacy_audio_sample_format: Option<String>,
    pub microphone_audio_byte_count: i64,
    pub microphone_audio_sample_rate: Option<i64>,
    pub microphone_audio_channels: Option<i64>,
    pub microphone_audio_sample_format: Option<String>,
    pub source_audio_byte_count: i64,
    pub source_audio_sample_rate: Option<i64>,
    pub source_audio_channels: Option<i64>,
    pub source_audio_sample_format: Option<String>,
    pub started_at: String,
    pub stopped_at: Option<String>,
    pub duration_ms: Option<i64>,
    pub failure_message: Option<String>,
    pub created_at: String,
    pub updated_at: String,
}

/// A legacy audio path belongs to the microphone unless the session recorded source audio
/// only.
pub open spec fn spec_microphone_audio_path(row: RecordingSessionRow) -> Option<String> {
    match row.microphone_audio_path {
        Some(p) => Some(p),
        None => if row.audio_mode != CaptureAudioMode::Source {
            row.legacy_audio_path
        } else {
            None
        },
    }
}

/// A non-empty legacy audio path belongs to the source audio when the session recorded source
/// audio only.
pub open spec fn spec_source_audio_path(row: RecordingSessionRow) -> Option<String> {
    match row.source_audio_path {
        Some(p) => Some(p),
        None => match row.legacy_audio_path {
            Some(p) => if row.audio_mode == CaptureAudioMode::Source && p@.len() > 0 {
                Some(p)
            } else {
                None
            },
            None => None,
        },
    }
}

/// A stream's format field as stored, or the legacy one when the stream has a file.
pub open spec fn stream_or_legacy<T>(stored: Option<T>, has_path: bool, legacy: Option<T>) -> Option<T> {
    match stored {
        Some(v) => Some(v),
        None => if has_path {
            legacy
        } else {
            None
        },
    }
}

fn stream_or_legacy_i64(stored: Option<i64>, has_path: bool, legacy: Option<i64>) -> (r: Option<
    i64,
>)
    ensures
        r == stream_or_legacy(stored, has_path, legacy),
{
    match stored {
        Some(v) => Some(v),
        None => if has_path {
            legacy
        } else {
            None
        },
    }
}

fn stream_or_legacy_string(
    stored: Option<String>,
    has_path: bool,
    legacy: &Option<String>,
) -> (r: Option<String>)
    ensures
        r == stream_or_legacy(stored, has_path, *legacy),
{
    match stored {
        Some(v) => Some(v),
        None => if has_path {
            clone_opt_string(legacy)
        } else {
            None
        },
    }
}

/// The session a stored row describes, reading legacy single-stream rows as split audio.
pub fn recording_session_from_row(row: RecordingSessionRow) -> (r: RecordingSession)
    ensures
        ({
            let microphone_path = spec_microphone_audio_path(row);
            let source_path = spec_source_audio_path(row);
            &&& r.id == row.id
            &&& r.recording_id == row.recording_id
            &&& r.status == row.status
            &&& r.temp_directory == row.temp_directory
            &&& r.video_path == row.video_path
            &&& r.audio_path == first_present(row.legacy_audio_path, microphone_path)
            &&& r.metadata_path == row.metadata_path
            &&& r.video_source_id == if row.video_source_id@.len() == 0 {
                row.screen_source_id
            } else {
                row.video_source_id
            }
            &&& r.screen_source_id == row.screen_source_id
            &&& r.video_source_kind == row.video_source_kind
            &&& r.video_source_title == row.video_source_title
            &&& r.video_source_app_name == row.video_source_app_name
            &&& r.video_source_process_id == row.video_source_process_id
            &&& r.video_source_window_id == row.video_source_window_id
            &&& r.microphone_device_id == row.microphone_device_id
            &&& r.include_microphone == (row.include_microphone == 1)
            &&& r.audio_mode == row.audio_mode
            &&& r.microphone_audio_path == microphone_path
            &&& r.source_audio_path == source_path
            &&& r.width == row.width
            &&& r.height == row.height
            &&& r.frame_rate == row.frame_rate
            &&& r.frame_count == row.frame_count
            &&& r.audio_byte_count == row.legacy_audio_byte_count
            &&& r.audio_sample_rate == row.legacy_audio_sample_rate
            &&& r.audio_channels == row.legacy_audio_channels
            &&& r.audio_sample_format == row.legacy_audio_sample_format
            &&& r.microphone_audio_byte_count == spec_fallback_stream_byte_count(
                row.microphone_audio_byte_count,
                microphone_path is Some,
                row.legacy_audio_byte_count,
            )
            &&& r.microphone_audio_sample_rate == stream_or_legacy(
                row.microphone_audio_sample_rate,
                microphone_path is Some,
                row.legacy_audio_sample_rate,
            )
            &&& r.microphone_audio_channels == stream_or_legacy(
                row.microphone_audio_channels,
                microphone_path is Some,
                row.legacy_audio_channels,
            )
            &&& r.microphone_audio_sample_format == stream_or_legacy(
                row.microphone_audio_sample_format,
                microphone_path is Some,
                row.legacy_audio_sample_format,
            )
            &&& r.source_audio_byte_count == spec_fallback_stream_byte_count(
                row.source_audio_byte_count,
                source_path is Some,
                row.legacy_audio_byte_count,
            )
            &&& r.source_audio_sample_rate == stream_or_legacy(
                row.source_audio_sample_rate,
                source_path is Some,
                row.legacy_audio_sample_rate,
            )
            &&& r.source_audio_channels == stream_or_legacy(
                row.source_audio_channels,
                source_path is Some,
                row.legacy_audio_channels,
            )
            &&& r.source_audio_sample_format == stream_or_legacy(
                row.source_audio_sample_format,
                source_path is Some,
                row.legacy_audio_sample_format,
            )
            &&& r.started_at == row.started_at
            &&& r.stopped_at == row.stopped_at
            &&& r.duration_ms == row.duration_ms
            &&& r.failure_message == row.failure_message
            &&& r.created_at == row.created_at
            &&& r.updated_at == row.updated_at
        }),
{
    let microphone_audio_path = match &row.microphone_audio_path {
        Some(p) => Some(p.clone()),
        None => if row.audio_mode != CaptureAudioMode::Source {
            clone_opt_string(&row.legacy_audio_path)
        } else {
            None
        },
    };
    let source_audio_path = match &row.source_audio_path {
        Some(p) => Some(p.clone()),
        None => match &row.legacy_audio_path {
            Some(p) => if row.audio_mode == CaptureAudioMode::Source && p.unicode_len() > 0 {
                Some(p.clone())
            } else {
                None
            },
            None => None,
        },
    };
    let has_microphone = microphone_audio_path.is_some();
    let has_source = source_audio_path.is_some();
    let microphone_audio_byte_count = fallback_stream_byte_count(
        row.microphone_audio_byte_count,
        match &microphone_audio_path {
            Some(p) => Some(p.as_str()),
            None => None,
        },
        row.legacy_audio_byte_count,
    );
    let source_audio_byte_count = fallback_stream_byte_count(
        row.source_audio_byte_count,
        match &source_audio_path {
            Some(p) => Some(p.as_str()),
            None => None,
        },
        row.legacy_audio_byte_count,
    );
    let microphone_audio_sample_rate = stream_or_legacy_i64(
        row.microphone_audio_sample_rate,
        has_microphone,
        row.legacy_audio_sample_rate,
    );
    let microphone_audio_channels = stream_or_legacy_i64(
        row.microphone_audio_channels,
        has_microphone,
        row.legacy_audio_channels,
    );
    let microphone_audio_sample_format = stream_or_legacy_string(
        row.microphone_audio_sample_format,
        has_microphone,
        &row.legacy_audio_sample_format,
    );
    let source_audio_sample_rate = stream_or_legacy_i64(
        row.source_audio_sample_rate,
        has_source,
        row.legacy_audio_sample_rate,
    );
    let source_audio_channels = stream_or_legacy_i64(
        row.source_audio_channels,
        has_source,
        row.legacy_audio_channels,
    );
    let source_audio_sample_format = stream_or_legacy_string(
        row.source_audio_sample_format,
        has_source,
        &row.legacy_audio_sample_format,
    );
    let audio_path = match row.legacy_audio_path {
        Some(p) => Some(p),
        None => clone_opt_string(&microphone_audio_path),
    };
    let video_source_id = if row.video_source_id.unicode_len() == 0 {
        row.screen_source_id.clone()
    } else {
        row.video_source_id
    };
    RecordingSession {
        id: row.id,
        recording_id: row.recording_id,
        status: row.status,
        temp_directory: row.temp_directory,
        video_path: row.video_path,
        audio_path,
        metadata_path: row.metadata_path,
        video_source_id,
        screen_source_id: row.screen_source_id,
        video_source_kind: row.video_source_kind,
        video_source_title: row.video_source_title,
        video_source_app_name: row.video_source_app_name,
        video_source_process_id: row.video_source_process_id,
        video_source_window_id: row.video_source_window_id,
        microphone_device_id: row.microphone_device_id,
        include_microphone: row.include_microphone == 1,
        audio_mode: row.audio_mode,
        microphone_audio_path,
        source_audio_path,
        width: row.width,
        height: row.height,
        frame_rate: row.frame_rate,
        frame_count: row.frame_count,
        audio_byte_count: row.legacy_audio_byte_count,
        audio_sample_rate: row.legacy_audio_sample_rate,
        audio_channels: row.legacy_audio_channels,
        audio_sample_format: row.legacy_audio_sample_format,
        microphone_audio_byte_count,
        microphone_audio_sample_rate,
        microphone_audio_channels,
        microphone_audio_sample_format,
        source_audio_byte_count,
        source_audio_sample_rate,
        source_audio_channels,
        source_audio_sample_format,
        started_at: row.started_at,
        stopped_at: row.stopped_at,
        duration_ms: row.duration_ms,
        failure_message: row.failure_message,
        created_at: row.created_at,
        updated_at: row.updated_at,
    }
}


/// Where the local store keeps things.
#[derive(Debug, Clone, PartialEq, Eq)]
pub struct StoragePaths {
    pub root: String,
    pub database_file: String,
    pub recordings_directory: String,
    pub whisper_models_directory: String,
    pub temp_directory: String,
}

/// The store's locations as reported to the user interface.
#[derive(Debug, Clone, PartialEq, Eq)]
pub struct StoragePathsSnapshot {
    pub root: String,
    pub database_file: String,
    pub recordings_directory: String,
    pub whisper_models_directory: String,
    pub temp_directory: String,
}

/// A summary of the local store.
#[derive(Debug, Clone, PartialEq, Eq)]
pub struct StorageOverview {
    pub paths: StoragePathsSnapshot,
    pub schema_version: i64,
    pub sqlite_initialized: bool,
    pub tables: Vec<String>,
    pub recording_count: i64,
    pub processing_job_count: i64,
}

impl StoragePaths {
    /// The store's layout under `root`.
    pub fn new(root: String) -> (r: StoragePaths)
        ensures
            r.root == root,
            r.database_file@ == spec_join_path(root@, DATABASE_FILE_NAME@),
            r.recordings_directory@ == spec_join_path(root@, RECORDINGS_DIRECTORY_NAME@),
            r.whisper_models_directory@ == spec_join_path(
                spec_join_path(root@, MODELS_DIRECTORY_NAME@),
                WHISPER_MODELS_DIRECTORY_NAME@,
            ),
            r.temp_directory@ == spec_join_path(root@, TEMP_DIRECTORY_NAME@),
    {
        let database_file = join_path(root.as_str(), DATABASE_FILE_NAME);
        let recordings_directory = join_path(root.as_str(), RECORDINGS_DIRECTORY_NAME);
        let models = join_path(root.as_str(), MODELS_DIRECTORY_NAME);
        let whisper_models_directory = join_path(models.as_str(), WHISPER_MODELS_DIRECTORY_NAME);
        let temp_directory = join_path(root.as_str(), TEMP_DIRECTORY_NAME);
        StoragePaths {
            root,
            database_file,
            recordings_directory,
            whisper_models_directory,
            temp_directory,
        }
    }

    pub fn snapshot(&self) -> (r: StoragePathsSnapshot)
        ensures
            r.root == self.root,
            r.database_file == self.database_file,
            r.recordings_directory == self.recordings_directory,
            r.whisper_models_directory == self.whisper_models_directory,
            r.temp_directory == self.temp_directory,
    {
        StoragePathsSnapshot {
            root: self.root.clone(),
            database_file: self.database_file.clone(),
            recordings_directory: self.recordings_directory.clone(),
            whisper_models_directory: self.whisper_models_directory.clone(),
            temp_directory: self.temp_directory.clone(),
        }
    }
}

/// The local store: its locations. Each database operation opens its own connection.
#[derive(Debug, Clone, PartialEq, Eq)]
pub struct StorageState {
    pub paths: StoragePaths,
}

/// A stored path as a file path: an absolute one as it is, a relative one under the store's
/// root.
pub open spec fn spec_resolve_path(root: Seq<char>, path: Seq<char>) -> Seq<char> {
    if spec_is_absolute_path(path) {
        path
    } else {
        spec_join_path(root, path)
    }
}

impl StorageState {
    /// A stored path as a file path. Under an absolute root, resolving the result again
    /// leaves it as it is.
    pub fn resolve_path(&self, path: &str) -> (r: String)
        ensures
            r@ == spec_resolve_path(self.paths.root@, path@),
            spec_is_absolute_path(self.paths.root@) ==> spec_resolve_path(self.paths.root@, r@)
                == r@,
    {
        if is_absolute_path(path) {
            path.to_owned()
        } else {
            join_path(self.paths.root.as_str(), path)
        }
    }

    pub fn whisper_models_directory(&self) -> (r: &str)
        ensures
            r@ == self.paths.whisper_models_directory@,
    {
        self.paths.whisper_models_directory.as_str()
    }

    /// The absolute locations of a recording's media and thumbnail, when it has them.
    pub fn recording_asset_paths(&self, recording: &Recording) -> (r: RecordingAssetPaths)
        ensures
            match recording.media_path {
                Some(p) => r.media_path matches Some(m) && m@ == spec_resolve_path(
                    self.paths.root@,
                    p@,
                ),
                None => r.media_path is None,
            },
            match recording.thumbnail_path {
                Some(p) => r.thumbnail_path matches Some(t) && t@ == spec_resolve_path(
                    self.paths.root@,
                    p@,
                ),
                None => r.thumbnail_path is None,
            },
    {
        RecordingAssetPaths {
            media_path: match &recording.media_path {
                Some(p) => Some(self.resolve_path(p.as_str())),
                None => None,
            },
            thumbnail_path: match &recording.thumbnail_path {
                Some(p) => Some(self.resolve_path(p.as_str())),
                None => None,
            },
        }
    }
}

/// The absolute locations of a recording's media and thumbnail.
#[derive(Debug, Clone, PartialEq, Eq)]
pub struct RecordingAssetPaths {
    pub media_path: Option<String>,
    pub thumbnail_path: Option<String>,
}

/// The files one capture writes, relative to the store's root and resolved.
#[derive(Debug, Clone, PartialEq, Eq)]
pub struct RecordingSessionFiles {
    pub video_path: String,
    pub microphone_audio_path: Option<String>,
    pub source_audio_path: Option<String>,
    pub metadata_path: String,
    pub temp_directory_relative: String,
    pub video_path_relative: String,
    pub audio_path_relative: Option<String>,
    pub microphone_audio_path_relative: Option<String>,
    pub source_audio_path_relative: Option<String>,
    pub metadata_path_relative: String,
}

/// `temp/recording-sessions/<session id>`.
pub open spec fn spec_session_directory(session_id: Seq<char>) -> Seq<char> {
    TEMP_DIRECTORY_NAME@ + "/"@ + RECORDING_SESSIONS_DIRECTORY_NAME@ + "/"@ + session_id
}

/// The video file of a capture: a chunked manifest on macOS, raw frames elsewhere.
pub open spec fn spec_session_video_path(directory: Seq<char>, platform: PlatformBackend) -> Seq<
    char,
> {
    if platform == PlatformBackend::Macos {
        spec_chunked_manifest_relative_path(directory)
    } else {
        directory + "/screen_frames.mfrv"@
    }
}

impl StorageState {
    /// Where a new capture's files go: one audio file per recorded stream, the video file, and
    /// the session metadata, all under the session's temporary directory.
    pub fn recording_session_files(
        &self,
        session_id: &str,
        audio_mode: CaptureAudioMode,
        platform: PlatformBackend,
    ) -> (r: RecordingSessionFiles)
        ensures
            ({
                let directory = spec_session_directory(session_id@);
                let root = self.paths.root@;
                &&& r.temp_directory_relative@ == directory
                &&& r.video_path_relative@ == spec_session_video_path(directory, platform)
                &&& r.video_path@ == spec_join_path(root, r.video_path_relative@)
                &&& r.metadata_path_relative@ == directory + "/session.json"@
                &&& r.metadata_path@ == spec_join_path(root, r.metadata_path_relative@)
                &&& if audio_mode.spec_includes_microphone() {
                    &&& r.microphone_audio_path_relative matches Some(p) && p@ == directory
                        + "/microphone.pcm"@
                    &&& r.microphone_audio_path matches Some(p) && p@ == spec_join_path(
                        root,
                        directory + "/microphone.pcm"@,
                    )
                } else {
                    r.microphone_audio_path_relative is None && r.microphone_audio_path is None
                }
                &&& if audio_mode.spec_includes_source_audio() {
                    &&& r.source_audio_path_relative matches Some(p) && p@ == directory
                        + "/source_audio.pcm"@
                    &&& r.source_audio_path matches Some(p) && p@ == spec_join_path(
                        root,
                        directory + "/source_audio.pcm"@,
                    )
                } else {
                    r.source_audio_path_relative is None && r.source_audio_path is None
                }
                &&& r.audio_path_relative == r.microphone_audio_path_relative
            }),
    {
        let directory = String::from_str(TEMP_DIRECTORY_NAME).concat("/").concat(
            RECORDING_SESSIONS_DIRECTORY_NAME,
        ).concat("/").concat(session_id);
        let video_path_relative = if platform == PlatformBackend::Macos {
            chunked_manifest_relative_path(directory.as_str())
        } else {
            directory.clone().concat("/screen_frames.mfrv")
        };
        let microphone_audio_path_relative = if audio_mode.includes_microphone() {
            Some(directory.clone().concat("/microphone.pcm"))
        } else {
            None
        };
        let source_audio_path_relative = if audio_mode.includes_source_audio() {
            Some(directory.clone().concat("/source_audio.pcm"))
        } else {
            None
        };
        let metadata_path_relative = directory.clone().concat("/session.json");
        let root = self.paths.root.as_str();
        RecordingSessionFiles {
            video_path: join_path(root, video_path_relative.as_str()),
            microphone_audio_path: match &microphone_audio_path_relative {
                Some(p) => Some(join_path(root, p.as_str())),
                None => None,
            },
            source_audio_path: match &source_audio_path_relative {
                Some(p) => Some(join_path(root, p.as_str())),
                None => None,
            },
            metadata_path: join_path(root, metadata_path_relative.as_str()),
            temp_directory_relative: directory,
            video_path_relative,
            audio_path_relative: clone_opt_string(&microphone_audio_path_relative),
            microphone_audio_path_relative,
            source_audio_path_relative,
            metadata_path_relative,
        }
    }

    /// Where a recording's encoded media and thumbnail go.
    pub fn recording_media_files(&self, recording: &Recording) -> (r: RecordingMediaFiles)
        ensures
            ({
                let directory = crate::paths::spec_trim_trailing_slashes(
                    recording.recording_directory@,
                );
                &&& r.recording_directory@ == spec_resolve_path(
                    self.paths.root@,
                    recording.recording_directory@,
                )
                &&& r.media_path_relative@ == directory + "/recording.mp4"@
                &&& r.thumbnail_path_relative@ == directory + "/thumbnail.jpg"@
                &&& r.media_path@ == spec_resolve_path(self.paths.root@, r.media_path_relative@)
                &&& r.thumbnail_path@ == spec_resolve_path(
                    self.paths.root@,
                    r.thumbnail_path_relative@,
                )
            }),
    {
        let directory = crate::paths::trim_trailing_slashes(recording.recording_directory.as_str());
        let media_path_relative = directory.to_owned().concat("/recording.mp4");
        let thumbnail_path_relative = directory.to_owned().concat("/thumbnail.jpg");
        RecordingMediaFiles {
            recording_directory: self.resolve_path(recording.recording_directory.as_str()),
            media_path: self.resolve_path(media_path_relative.as_str()),
            thumbnail_path: self.resolve_path(thumbnail_path_relative.as_str()),
            media_path_relative,
            thumbnail_path_relative,
        }
    }
}

/// Where a recording's encoded files go.
#[derive(Debug, Clone, PartialEq, Eq)]
pub struct RecordingMediaFiles {
    pub recording_directory: String,
    pub media_path: String,
    pub thumbnail_path: String,
    pub media_path_relative: String,
    pub thumbnail_path_relative: String,
}

} // verus!

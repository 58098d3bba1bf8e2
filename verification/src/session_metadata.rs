//! The metadata document written beside a capture session: what was captured, where the
//! sidecars are, how the frames were normalized and how the streams are timed.
use vstd::prelude::*;
use vstd::string::*;

use crate::media::chunked_video::spec_is_chunked_video_path;
use crate::recorder::{video_sidecar_format, VideoSourceDimensions};
use crate::storage::sessions::RecordingSession;

verus! {

pub const SCALE_TO_FIT_POLICY: &'static str = "scale_to_fit";

pub const CENTERED_BLACK_PADDING: &'static str = "centered_opaque_black";

pub const AUDIO_STREAM_FORMAT: &'static str =
    "raw interleaved PCM bytes with block timing headers v1";

pub const VIDEO_CLOCK_NOTE: &'static str =
    "elapsed milliseconds from local session start, plus frame display epoch";

pub const AUDIO_CLOCK_NOTE: &'static str =
    "elapsed milliseconds from local session start, plus CPAL stream timestamps";

pub const SYNC_NOTE: &'static str =
    "Each media record carries timing headers so final encoding can align audio and video.";

#[derive(Debug, Clone, Copy, PartialEq, Eq, Structural)]
pub struct SessionResolution {
    pub width: Option<i64>,
    pub height: Option<i64>,
}

#[derive(Debug, Clone, PartialEq, Eq)]
pub struct SessionVideoSourceSidecar {
    pub id: String,
    pub kind: String,
    pub title: String,
    pub app_name: Option<String>,
    pub process_id: Option<i64>,
    pub window_id: Option<i64>,
}

#[derive(Debug, Clone, Copy, PartialEq, Eq)]
pub struct SessionVideoNormalizationSidecar {
    pub policy: &'static str,
    pub padding: &'static str,
}

#[derive(Debug, Clone, PartialEq, Eq)]
pub struct SessionVideoSidecar {
    pub path: String,
    pub format: &'static str,
    pub source: SessionVideoSourceSidecar,
    pub output_dimensions: SessionResolution,
    pub initial_output_dimensions: SessionResolution,
    pub current_source_dimensions: SessionResolution,
    pub normalization: SessionVideoNormalizationSidecar,
}

#[derive(Debug, Clone, PartialEq, Eq)]
pub struct SessionAudioStreamSidecar {
    pub path: String,
    pub format: &'static str,
    pub sample_rate: Option<i64>,
    pub channels: Option<i64>,
    pub sample_format: Option<String>,
    pub byte_count: i64,
}

#[derive(Debug, Clone, PartialEq, Eq)]
pub struct SessionAudioSidecar {
    pub mode: &'static str,
    pub microphone: Option<SessionAudioStreamSidecar>,
    pub source: Option<SessionAudioStreamSidecar>,
}

#[derive(Debug, Clone, Copy, PartialEq, Eq)]
pub struct SessionSyncSidecar {
    pub video_clock: &'static str,
    pub audio_clock: &'static str,
    pub note: &'static str,
}

/// The metadata document of a capture session.
#[derive(Debug, Clone, PartialEq, Eq)]
pub struct RecordingSessionSidecar {
    pub session_id: String,
    pub recording_id: String,
    pub status: &'static str,
    pub created_at: String,
    pub started_at: String,
    pub stopped_at: Option<String>,
    pub duration_ms: Option<i64>,
    pub resolution: SessionResolution,
    pub frame_rate: i64,
    pub frame_count: i64,
    pub video: SessionVideoSidecar,
    pub audio: SessionAudioSidecar,
    pub sync: SessionSyncSidecar,
    pub failure_message: Option<String>,
}

/// An audio stream's entry: present when the stream was recorded to a file.
pub open spec fn spec_audio_stream_entry(
    path: Option<String>,
    sample_rate: Option<i64>,
    channels: Option<i64>,
    sample_format: Option<String>,
    byte_count: i64,
    entry: Option<SessionAudioStreamSidecar>,
) -> bool {
    match path {
        Some(p) => entry matches Some(e) && e.path@ == p@ && e.format@ == AUDIO_STREAM_FORMAT@
            && e.sample_rate == sample_rate && e.channels == channels && e.sample_format
            == sample_format && e.byte_count == byte_count,
        None => entry is None,
    }
}

fn audio_stream_entry(
    path: &Option<String>,
    sample_rate: Option<i64>,
    channels: Option<i64>,
    sample_format: &Option<String>,
    byte_count: i64,
) -> (r: Option<SessionAudioStreamSidecar>)
    ensures
        spec_audio_stream_entry(*path, sample_rate, channels, *sample_format, byte_count, r),
{
    match path {
        Some(p) => Some(
            SessionAudioStreamSidecar {
                path: p.clone(),
                format: AUDIO_STREAM_FORMAT,
                sample_rate,
                channels,
                sample_format: clone_opt_string(sample_format),
                byte_count,
            },
        ),
        None => None,
    }
}

fn clone_opt_string(value: &Option<String>) -> (r: Option<String>)
    ensures
        r == *value,
{
    match value {
        Some(s) => Some(s.clone()),
        None => None,
    }
}

/// The metadata document of `session`. The source dimensions default to the session's own
/// output size; the document names the session's status, times, resolution, frame counts,
/// video sidecar (path, format, source, dimensions, normalization) and audio streams.
pub fn session_sidecar(session: &RecordingSession, source_dimensions: Option<VideoSourceDimensions>) -> (r:
    RecordingSessionSidecar)
    ensures
        r.session_id == session.id,
        r.recording_id == session.recording_id,
        r.status@ == session.status.spec_str(),
        r.created_at == session.created_at,
        r.started_at == session.started_at,
        r.stopped_at == session.stopped_at,
        r.duration_ms == session.duration_ms,
        r.resolution == (SessionResolution { width: session.width, height: session.height }),
        r.frame_rate == session.frame_rate,
        r.frame_count == session.frame_count,
        r.video.path == session.video_path,
        r.video.format@ == if spec_is_chunked_video_path(session.video_path@) {
            "metafy chunked H.264 segment manifest v1"@
        } else {
            "metafy raw BGRA frame stream v1"@
        },
        r.video.source == (SessionVideoSourceSidecar {
            id: session.video_source_id,
            kind: session.video_source_kind,
            title: session.video_source_title,
            app_name: session.video_source_app_name,
            process_id: session.video_source_process_id,
            window_id: session.video_source_window_id,
        }),
        r.video.output_dimensions == r.resolution,
        r.video.initial_output_dimensions == r.resolution,
        r.video.current_source_dimensions == match source_dimensions {
            Some(d) => SessionResolution { width: d.width, height: d.height },
            None => r.resolution,
        },
        r.video.normalization.policy@ == SCALE_TO_FIT_POLICY@,
        r.video.normalization.padding@ == CENTERED_BLACK_PADDING@,
        r.audio.mode@ == session.audio_mode.spec_str(),
        spec_audio_stream_entry(
            session.microphone_audio_path,
            session.microphone_audio_sample_rate,
            session.microphone_audio_channels,
            session.microphone_audio_sample_format,
            session.microphone_audio_byte_count,
            r.audio.microphone,
        ),
        spec_audio_stream_entry(
            session.source_audio_path,
            session.source_audio_sample_rate,
            session.source_audio_channels,
            session.source_audio_sample_format,
            session.source_audio_byte_count,
            r.audio.source,
        ),
        r.sync.video_clock@ == VIDEO_CLOCK_NOTE@,
        r.sync.audio_clock@ == AUDIO_CLOCK_NOTE@,
        r.sync.note@ == SYNC_NOTE@,
        r.failure_message == session.failure_message,
{
    let resolution = SessionResolution { width: session.width, height: session.height };
    let current = match source_dimensions {
        Some(d) => SessionResolution { width: d.width, height: d.height },
        None => resolution,
    };
    RecordingSessionSidecar {
        session_id: session.id.clone(),
        recording_id: session.recording_id.clone(),
        status: session.status.as_str(),
        created_at: session.created_at.clone(),
        started_at: session.started_at.clone(),
        stopped_at: clone_opt_string(&session.stopped_at),
        duration_ms: session.duration_ms,
        resolution,
        frame_rate: session.frame_rate,
        frame_count: session.frame_count,
        video: SessionVideoSidecar {
            path: session.video_path.clone(),
            format: video_sidecar_format(session.video_path.as_str()),
            source: SessionVideoSourceSidecar {
                id: session.video_source_id.clone(),
                kind: session.video_source_kind.clone(),
                title: session.video_source_title.clone(),
                app_name: clone_opt_string(&session.video_source_app_name),
                process_id: session.video_source_process_id,
                window_id: session.video_source_window_id,
            },
            output_dimensions: resolution,
            initial_output_dimensions: resolution,
            current_source_dimensions: current,
            normalization: SessionVideoNormalizationSidecar {
                policy: SCALE_TO_FIT_POLICY,
                padding: CENTERED_BLACK_PADDING,
            },
        },
        audio: SessionAudioSidecar {
            mode: session.audio_mode.as_str(),
            microphone: audio_stream_entry(
                &session.microphone_audio_path,
                session.microphone_audio_sample_rate,
                session.microphone_audio_channels,
                &session.microphone_audio_sample_format,
                session.microphone_audio_byte_count,
            ),
            source: audio_stream_entry(
                &session.source_audio_path,
                session.source_audio_sample_rate,
                session.source_audio_channels,
                &session.source_audio_sample_format,
                session.source_audio_byte_count,
            ),
        },
        sync: SessionSyncSidecar {
            video_clock: VIDEO_CLOCK_NOTE,
            audio_clock: AUDIO_CLOCK_NOTE,
            note: SYNC_NOTE,
        },
        failure_message: clone_opt_string(&session.failure_message),
    }
}

} // verus!

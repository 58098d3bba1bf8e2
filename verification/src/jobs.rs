//! Background processing jobs: their kinds, what each kind does when it is claimed, retried or
//! found interrupted, how jobs are started, finished and failed, and what cleaning a
//! recording's processing files removes and keeps.
use vstd::prelude::*;
use vstd::string::*;

use crate::storage::sessions::{spec_resolve_path, FinishRecordingSessionInput, RecordingSession, StorageState};
use crate::storage::{
    clone_opt_string, JobState, ProcessingJob, Recording, RecordingSessionStatus, RecordingStatus,
    UpdateProcessingJobInput, UpdateRecordingInput,
};
use crate::text::{str_equals, string_views};

verus! {

pub const KIND_ENCODE_RECORDING: &'static str = "encode_recording";

pub const KIND_EXTRACT_AUDIO: &'static str = "extract_audio";

pub const KIND_RUN_WHISPER: &'static str = "run_whisper";

pub const KIND_INDEX_TRANSCRIPT: &'static str = "index_transcript";

pub const KIND_GENERATE_THUMBNAIL: &'static str = "generate_thumbnail";

pub const KIND_AI_SUMMARY: &'static str = "ai_summary";

pub const KIND_CLEAN_TEMP_FILES: &'static str = "clean_temp_files";

pub const KIND_TRANSCRIBE_RECORDING: &'static str = "transcribe_recording";

pub const INTERRUPTED_JOB_MESSAGE: &'static str =
    "Job was interrupted because the app stopped before it completed.";

pub const INTERRUPTED_CAPTURE_MESSAGE: &'static str =
    "Recording capture was interrupted because the app stopped before the session finished.";

pub const SUBSTEP_RETRY_MESSAGE: &'static str =
    "This substep is retried through its parent recording job.";

/// Priorities and attempt limits of the jobs the application creates.
pub const ENCODE_PRIORITY: i64 = 20;

pub const TRANSCRIBE_PRIORITY: i64 = 10;

pub const EXTRACT_AUDIO_PRIORITY: i64 = 9;

pub const RUN_WHISPER_PRIORITY: i64 = 8;

pub const GENERATE_THUMBNAIL_PRIORITY: i64 = 8;

pub const INDEX_SUBJOB_PRIORITY: i64 = 6;

pub const AI_SUMMARY_PRIORITY: i64 = 5;

pub const REINDEX_PRIORITY: i64 = 4;

pub const CLEANUP_PRIORITY: i64 = 1;

pub const TOP_LEVEL_MAX_ATTEMPTS: i64 = 3;

pub const MAINTENANCE_MAX_ATTEMPTS: i64 = 2;

pub const SUBJOB_MAX_ATTEMPTS: i64 = 1;

pub const TRANSCRIPTION_CHUNK_DURATION_MS: i64 = 30000;

/// A request to run a failed job again.
#[derive(Debug, Clone, PartialEq, Eq)]
pub struct RetryProcessingJobInput {
    pub job_id: String,
}

/// A request to clean the processing files of one recording, or of all.
#[derive(Debug, Clone, PartialEq, Eq)]
pub struct CleanupProcessingFilesInput {
    pub recording_id: Option<String>,
}

/// What recovery at start-up found and did.
#[derive(Debug, Clone, Copy, PartialEq, Eq, Structural)]
pub struct JobRecoverySummary {
    pub interrupted_job_count: usize,
    pub interrupted_recording_count: usize,
    pub rescheduled_job_count: usize,
    pub queued_job_count: usize,
}

/// What a cleanup removed and what it kept for a later retry.
#[derive(Debug, Clone, PartialEq, Eq)]
pub struct CleanupTempFilesResult {
    pub job_id: String,
    pub removed_paths: Vec<String>,
    pub preserved_paths: Vec<String>,
}

/// The job kinds the application knows.
#[derive(Debug, Clone, Copy, PartialEq, Eq, Structural)]
pub enum JobKind {
    EncodeRecording,
    ExtractAudio,
    RunWhisper,
    IndexTranscript,
    GenerateThumbnail,
    AiSummary,
    CleanTempFiles,
    TranscribeRecording,
}

impl JobKind {
    pub open spec fn spec_str(self) -> Seq<char> {
        match self {
            JobKind::EncodeRecording => KIND_ENCODE_RECORDING@,
            JobKind::ExtractAudio => KIND_EXTRACT_AUDIO@,
            JobKind::RunWhisper => KIND_RUN_WHISPER@,
            JobKind::IndexTranscript => KIND_INDEX_TRANSCRIPT@,
            JobKind::GenerateThumbnail => KIND_GENERATE_THUMBNAIL@,
            JobKind::AiSummary => KIND_AI_SUMMARY@,
            JobKind::CleanTempFiles => KIND_CLEAN_TEMP_FILES@,
            JobKind::TranscribeRecording => KIND_TRANSCRIBE_RECORDING@,
        }
    }

    pub fn as_str(&self) -> (r: &'static str)
        ensures
            r@ == self.spec_str(),
    {
        match self {
            JobKind::EncodeRecording => KIND_ENCODE_RECORDING,
            JobKind::ExtractAudio => KIND_EXTRACT_AUDIO,
            JobKind::RunWhisper => KIND_RUN_WHISPER,
            JobKind::IndexTranscript => KIND_INDEX_TRANSCRIPT,
            JobKind::GenerateThumbnail => KIND_GENERATE_THUMBNAIL,
            JobKind::AiSummary => KIND_AI_SUMMARY,
            JobKind::CleanTempFiles => KIND_CLEAN_TEMP_FILES,
            JobKind::TranscribeRecording => KIND_TRANSCRIBE_RECORDING,
        }
    }

    /// The kind a stored kind name stands for; none for a name the application does not
    /// know.
    pub open spec fn spec_parse(kind: Seq<char>) -> Option<JobKind> {
        if kind == KIND_ENCODE_RECORDING@ {
            Some(JobKind::EncodeRecording)
        } else if kind == KIND_EXTRACT_AUDIO@ {
            Some(JobKind::ExtractAudio)
        } else if kind == KIND_RUN_WHISPER@ {
            Some(JobKind::RunWhisper)
        } else if kind == KIND_INDEX_TRANSCRIPT@ {
            Some(JobKind::IndexTranscript)
        } else if kind == KIND_GENERATE_THUMBNAIL@ {
            Some(JobKind::GenerateThumbnail)
        } else if kind == KIND_AI_SUMMARY@ {
            Some(JobKind::AiSummary)
        } else if kind == KIND_CLEAN_TEMP_FILES@ {
            Some(JobKind::CleanTempFiles)
        } else if kind == KIND_TRANSCRIBE_RECORDING@ {
            Some(JobKind::TranscribeRecording)
        } else {
            None
        }
    }

    pub fn parse(kind: &str) -> (r: Option<JobKind>)
        ensures
            r == JobKind::spec_parse(kind@),
    {
        if str_equals(kind, KIND_ENCODE_RECORDING) {
            Some(JobKind::EncodeRecording)
        } else if str_equals(kind, KIND_EXTRACT_AUDIO) {
            Some(JobKind::ExtractAudio)
        } else if str_equals(kind, KIND_RUN_WHISPER) {
            Some(JobKind::RunWhisper)
        } else if str_equals(kind, KIND_INDEX_TRANSCRIPT) {
            Some(JobKind::IndexTranscript)
        } else if str_equals(kind, KIND_GENERATE_THUMBNAIL) {
            Some(JobKind::GenerateThumbnail)
        } else if str_equals(kind, KIND_AI_SUMMARY) {
            Some(JobKind::AiSummary)
        } else if str_equals(kind, KIND_CLEAN_TEMP_FILES) {
            Some(JobKind::CleanTempFiles)
        } else if str_equals(kind, KIND_TRANSCRIBE_RECORDING) {
            Some(JobKind::TranscribeRecording)
        } else {
            None
        }
    }
}

/// Every kind name parses back to its kind.
pub proof fn lemma_job_kind_round_trip(kind: JobKind)
    ensures
        JobKind::spec_parse(kind.spec_str()) == Some(kind),
{
    reveal_strlit("encode_recording");
    reveal_strlit("extract_audio");
    reveal_strlit("run_whisper");
    reveal_strlit("index_transcript");
    reveal_strlit("generate_thumbnail");
    reveal_strlit("ai_summary");
    reveal_strlit("clean_temp_files");
    reveal_strlit("transcribe_recording");
    let names = seq![
        KIND_ENCODE_RECORDING@,
        KIND_EXTRACT_AUDIO@,
        KIND_RUN_WHISPER@,
        KIND_INDEX_TRANSCRIPT@,
        KIND_GENERATE_THUMBNAIL@,
        KIND_AI_SUMMARY@,
        KIND_CLEAN_TEMP_FILES@,
        KIND_TRANSCRIBE_RECORDING@,
    ];
    assert(forall|i: int, j: int| 0 <= i < j < 8 ==> names[i] != names[j]) by {
        assert(names[0].len() == 16 && names[1].len() == 13 && names[2].len() == 11);
        assert(names[3].len() == 16 && names[4].len() == 18 && names[5].len() == 10);
        assert(names[6].len() == 16 && names[7].len() == 20);
        assert(names[0][0] != names[3][0] && names[0][0] != names[6][0]);
        assert(names[3][0] != names[6][0]);
    }
}

/// What running a claimed job does.
#[derive(Debug, Clone, Copy, PartialEq, Eq, Structural)]
pub enum ClaimedJobAction {
    Encode,
    Transcribe,
    Summarize,
    Reindex,
    Cleanup,
    /// Failed, not interrupted: substeps are only retried through their parent job.
    FailSubstep,
    /// Failed, not interrupted: the kind is not one the application knows.
    FailUnsupported,
}

/// The action for a claimed job of `kind`.
pub open spec fn spec_claimed_job_action(kind: Seq<char>) -> ClaimedJobAction {
    match JobKind::spec_parse(kind) {
        Some(JobKind::EncodeRecording) => ClaimedJobAction::Encode,
        Some(JobKind::TranscribeRecording) => ClaimedJobAction::Transcribe,
        Some(JobKind::AiSummary) => ClaimedJobAction::Summarize,
        Some(JobKind::IndexTranscript) => ClaimedJobAction::Reindex,
        Some(JobKind::CleanTempFiles) => ClaimedJobAction::Cleanup,
        Some(_) => ClaimedJobAction::FailSubstep,
        None => ClaimedJobAction::FailUnsupported,
    }
}

pub fn claimed_job_action(kind: &str) -> (r: ClaimedJobAction)
    ensures
        r == spec_claimed_job_action(kind@),
{
    match JobKind::parse(kind) {
        Some(JobKind::EncodeRecording) => ClaimedJobAction::Encode,
        Some(JobKind::TranscribeRecording) => ClaimedJobAction::Transcribe,
        Some(JobKind::AiSummary) => ClaimedJobAction::Summarize,
        Some(JobKind::IndexTranscript) => ClaimedJobAction::Reindex,
        Some(JobKind::CleanTempFiles) => ClaimedJobAction::Cleanup,
        Some(_) => ClaimedJobAction::FailSubstep,
        None => ClaimedJobAction::FailUnsupported,
    }
}

pub open spec fn spec_unsupported_kind_message(kind: Seq<char>) -> Seq<char> {
    "Unsupported processing job kind: "@ + kind
}

/// The failure message of a claimed job that does not run.
pub fn claimed_job_failure_message(kind: &str) -> (r: Option<String>)
    ensures
        spec_claimed_job_action(kind@) == ClaimedJobAction::FailSubstep ==> (r matches Some(m)
            && m@ == SUBSTEP_RETRY_MESSAGE@),
        spec_claimed_job_action(kind@) == ClaimedJobAction::FailUnsupported ==> (r matches Some(
            m,
        ) && m@ == spec_unsupported_kind_message(kind@)),
        spec_claimed_job_action(kind@) != ClaimedJobAction::FailSubstep
            && spec_claimed_job_action(kind@) != ClaimedJobAction::FailUnsupported ==> r is None,
{
    match claimed_job_action(kind) {
        ClaimedJobAction::FailSubstep => Some(String::from_str(SUBSTEP_RETRY_MESSAGE)),
        ClaimedJobAction::FailUnsupported => Some(
            String::from_str("Unsupported processing job kind: ").concat(kind),
        ),
        _ => None,
    }
}

/// What a job's kind asks of its recording when the job is retried or found interrupted.
#[derive(Debug, Clone, Copy, PartialEq, Eq, Structural)]
pub enum RecordingJobEffect {
    /// The recording's encoding (processing again on retry, failed on interruption).
    Encoding,
    /// The recording's transcript (processing again on retry, failed on interruption).
    Transcript,
    /// The recording's AI summary (prepared again on retry, failed on interruption).
    AiSummary,
    Nothing,
}

/// The part of a recording a job of `kind` works on: encoding jobs its encoding; the
/// transcription job and its substeps its transcript; AI jobs its summary; others nothing.
pub open spec fn spec_recording_job_effect(kind: Seq<char>) -> RecordingJobEffect {
    match JobKind::spec_parse(kind) {
        Some(JobKind::EncodeRecording) => RecordingJobEffect::Encoding,
        Some(JobKind::TranscribeRecording) => RecordingJobEffect::Transcript,
        Some(JobKind::ExtractAudio) => RecordingJobEffect::Transcript,
        Some(JobKind::RunWhisper) => RecordingJobEffect::Transcript,
        Some(JobKind::AiSummary) => RecordingJobEffect::AiSummary,
        _ => RecordingJobEffect::Nothing,
    }
}

pub fn recording_job_effect(kind: &str) -> (r: RecordingJobEffect)
    ensures
        r == spec_recording_job_effect(kind@),
{
    match JobKind::parse(kind) {
        Some(JobKind::EncodeRecording) => RecordingJobEffect::Encoding,
        Some(JobKind::TranscribeRecording) => RecordingJobEffect::Transcript,
        Some(JobKind::ExtractAudio) => RecordingJobEffect::Transcript,
        Some(JobKind::RunWhisper) => RecordingJobEffect::Transcript,
        Some(JobKind::AiSummary) => RecordingJobEffect::AiSummary,
        _ => RecordingJobEffect::Nothing,
    }
}

/// A job of `kind` is queued or running.
pub open spec fn is_incomplete_of_kind(job: ProcessingJob, kind: Seq<char>) -> bool {
    job.kind@ == kind && (job.state == JobState::Queued || job.state == JobState::Running)
}

/// Whether any of `jobs` of `kind` is still queued or running.
pub fn has_incomplete_job(jobs: &Vec<ProcessingJob>, kind: &str) -> (r: bool)
    ensures
        r == exists|i: int| 0 <= i < jobs@.len() && is_incomplete_of_kind(#[trigger] jobs@[i], kind@),
{
    let mut i: usize = 0;
    while i < jobs.len()
        invariant
            i <= jobs@.len(),
            forall|j: int| 0 <= j < i ==> !is_incomplete_of_kind(#[trigger] jobs@[j], kind@),
        decreases jobs@.len() - i,
    {
        let job = &jobs[i];
        if str_equals(job.kind.as_str(), kind) && (job.state == JobState::Queued || job.state
            == JobState::Running) {
            assert(is_incomplete_of_kind(jobs@[i as int], kind@));
            return true;
        }
        i = i + 1;
    }
    false
}

pub open spec fn spec_missing_recording_id_message(kind: Seq<char>) -> Seq<char> {
    kind + " job is missing a recording id."@
}

/// The recording a job works on; refused for a job without one.
pub fn required_recording_id(job: &ProcessingJob) -> (r: Result<&str, String>)
    ensures
        match r {
            Ok(id) => job.recording_id matches Some(rid) && id@ == rid@,
            Err(e) => job.recording_id is None && e@ == spec_missing_recording_id_message(
                job.kind@,
            ),
        },
{
    match &job.recording_id {
        Some(id) => Ok(id.as_str()),
        None => Err(job.kind.clone().concat(" job is missing a recording id.")),
    }
}

/// The change that starts a created job: running, one more attempt, not interrupted.
pub fn start_job_update(job: &ProcessingJob) -> (r: UpdateProcessingJobInput)
    requires
        job.attempts < i64::MAX,
    ensures
        r == (UpdateProcessingJobInput {
            id: job.id,
            state: Some(JobState::Running),
            attempts: Some((job.attempts + 1) as i64),
            output_json: None,
            error_message: None,
            interrupted: Some(false),
            started_at: None,
            completed_at: None,
        }),
{
    UpdateProcessingJobInput {
        id: job.id.clone(),
        state: Some(JobState::Running),
        attempts: Some(job.attempts + 1),
        output_json: None,
        error_message: None,
        interrupted: Some(false),
        started_at: None,
        completed_at: None,
    }
}

/// The change that marks a job succeeded with its output.
pub fn complete_job_update(job_id: &str, output_json: String) -> (r: UpdateProcessingJobInput)
    ensures
        r.id@ == job_id@,
        r == (UpdateProcessingJobInput {
            id: r.id,
            state: Some(JobState::Succeeded),
            attempts: None,
            output_json: Some(output_json),
            error_message: None,
            interrupted: Some(false),
            started_at: None,
            completed_at: None,
        }),
{
    UpdateProcessingJobInput {
        id: job_id.to_owned(),
        state: Some(JobState::Succeeded),
        attempts: None,
        output_json: Some(output_json),
        error_message: None,
        interrupted: Some(false),
        started_at: None,
        completed_at: None,
    }
}

/// The change that marks a job failed with an error.
pub fn fail_job_update(job_id: &str, error: String, interrupted: bool) -> (r:
    UpdateProcessingJobInput)
    ensures
        r.id@ == job_id@,
        r == (UpdateProcessingJobInput {
            id: r.id,
            state: Some(JobState::Failed),
            attempts: None,
            output_json: None,
            error_message: Some(error),
            interrupted: Some(interrupted),
            started_at: None,
            completed_at: None,
        }),
{
    UpdateProcessingJobInput {
        id: job_id.to_owned(),
        state: Some(JobState::Failed),
        attempts: None,
        output_json: None,
        error_message: Some(error),
        interrupted: Some(interrupted),
        started_at: None,
        completed_at: None,
    }
}

/// A recording whose capture was still running when the application stopped: its session is
/// marked failed at `stopped_at`, keeping everything it counted.
pub fn interrupted_capture_finish(session: &RecordingSession, stopped_at: String) -> (r:
    FinishRecordingSessionInput)
    ensures
        r == (FinishRecordingSessionInput {
            id: session.id,
            status: RecordingSessionStatus::Failed,
            width: session.width,
            height: session.height,
            frame_count: session.frame_count,
            audio_byte_count: session.audio_byte_count,
            audio_sample_rate: session.audio_sample_rate,
            audio_channels: session.audio_channels,
            audio_sample_format: session.audio_sample_format,
            microphone_audio_byte_count: session.microphone_audio_byte_count,
            microphone_audio_sample_rate: session.microphone_audio_sample_rate,
            microphone_audio_channels: session.microphone_audio_channels,
            microphone_audio_sample_format: session.microphone_audio_sample_format,
            source_audio_byte_count: session.source_audio_byte_count,
            source_audio_sample_rate: session.source_audio_sample_rate,
            source_audio_channels: session.source_audio_channels,
            source_audio_sample_format: session.source_audio_sample_format,
            stopped_at: stopped_at,
            duration_ms: match session.duration_ms {
                Some(d) => d,
                None => 0,
            },
            failure_message: r.failure_message,
        }),
        r.failure_message matches Some(m) && m@ == INTERRUPTED_CAPTURE_MESSAGE@,
{
    FinishRecordingSessionInput {
        id: session.id.clone(),
        status: RecordingSessionStatus::Failed,
        width: session.width,
        height: session.height,
        frame_count: session.frame_count,
        audio_byte_count: session.audio_byte_count,
        audio_sample_rate: session.audio_sample_rate,
        audio_channels: session.audio_channels,
        audio_sample_format: clone_opt_string(&session.audio_sample_format),
        microphone_audio_byte_count: session.microphone_audio_byte_count,
        microphone_audio_sample_rate: session.microphone_audio_sample_rate,
        microphone_audio_channels: session.microphone_audio_channels,
        microphone_audio_sample_format: clone_opt_string(&session.microphone_audio_sample_format),
        source_audio_byte_count: session.source_audio_byte_count,
        source_audio_sample_rate: session.source_audio_sample_rate,
        source_audio_channels: session.source_audio_channels,
        source_audio_sample_format: clone_opt_string(&session.source_audio_sample_format),
        stopped_at,
        duration_ms: match session.duration_ms {
            Some(d) => d,
            None => 0,
        },
        failure_message: Some(String::from_str(INTERRUPTED_CAPTURE_MESSAGE)),
    }
}

/// The recording of an interrupted capture: failed, completed at `stopped_at`, its duration
/// kept.
pub fn interrupted_capture_recording_update(recording: &Recording, stopped_at: String) -> (r:
    UpdateRecordingInput)
    ensures
        r == (UpdateRecordingInput {
            id: recording.id,
            title: None,
            status: Some(RecordingStatus::Failed),
            media_path: None,
            thumbnail_path: None,
            duration_ms: recording.duration_ms,
            captured_at: None,
            completed_at: Some(stopped_at),
            failure_message: r.failure_message,
        }),
        r.failure_message matches Some(m) && m@ == INTERRUPTED_CAPTURE_MESSAGE@,
{
    UpdateRecordingInput {
        id: recording.id.clone(),
        title: None,
        status: Some(RecordingStatus::Failed),
        media_path: None,
        thumbnail_path: None,
        duration_ms: recording.duration_ms,
        captured_at: None,
        completed_at: Some(stopped_at),
        failure_message: Some(String::from_str(INTERRUPTED_CAPTURE_MESSAGE)),
    }
}

/// The session of a recording was still capturing when the application stopped.
pub open spec fn is_capturing(session: Option<RecordingSession>) -> bool {
    session matches Some(s) && s.status == RecordingSessionStatus::Capturing
}

/// How many of the recordings' sessions were still capturing.
pub open spec fn capturing_count(sessions: Seq<Option<RecordingSession>>) -> nat
    decreases sessions.len(),
{
    if sessions.len() == 0 {
        0
    } else {
        capturing_count(sessions.drop_last()) + if is_capturing(sessions.last()) {
            1nat
        } else {
            0nat
        }
    }
}

/// The recordings whose capture start-up recovery ends, given the session of each recording
/// in order: exactly those whose session was still capturing, in order, each once. Their
/// number is what recovery reports as interrupted recordings.
pub fn interrupted_capture_indices(sessions: &Vec<Option<RecordingSession>>) -> (r: Vec<usize>)
    ensures
        r@.len() == capturing_count(sessions@),
        forall|k: int| 0 <= k < r@.len() ==> #[trigger] r@[k] < sessions@.len() && is_capturing(
            sessions@[r@[k] as int],
        ),
        forall|k: int, l: int| 0 <= k < l < r@.len() ==> #[trigger] r@[k] < #[trigger] r@[l],
        forall|i: int| 0 <= i < sessions@.len() && is_capturing(#[trigger] sessions@[i]) ==> r@.contains(
            i as usize,
        ),
{
    let mut r: Vec<usize> = Vec::new();
    let mut i: usize = 0;
    while i < sessions.len()
        invariant
            i <= sessions@.len(),
            r@.len() == capturing_count(sessions@.subrange(0, i as int)),
            forall|k: int| 0 <= k < r@.len() ==> #[trigger] r@[k] < i && is_capturing(
                sessions@[r@[k] as int],
            ),
            forall|k: int, l: int| 0 <= k < l < r@.len() ==> #[trigger] r@[k] < #[trigger] r@[l],
            forall|j: int| 0 <= j < i && is_capturing(#[trigger] sessions@[j]) ==> r@.contains(
                j as usize,
            ),
        decreases sessions@.len() - i,
    {
        assert(sessions@.subrange(0, i + 1).drop_last() =~= sessions@.subrange(0, i as int));
        let capturing = match &sessions[i] {
            Some(s) => s.status == RecordingSessionStatus::Capturing,
            None => false,
        };
        if capturing {
            let ghost before = r@;
            r.push(i);
            assert forall|j: int| 0 <= j < i + 1 && is_capturing(#[trigger] sessions@[j]) implies r@.contains(
                j as usize,
            ) by {
                if j < i {
                    let k = choose|k: int| 0 <= k < before.len() && before[k] == j as usize;
                    assert(r@[k] == j as usize);
                } else {
                    assert(r@[before.len() as int] == j as usize);
                }
            }
        } else {
            assert forall|j: int| 0 <= j < i + 1 && is_capturing(#[trigger] sessions@[j]) implies r@.contains(
                j as usize,
            ) by {
                assert(j != i);
            }
        }
        i = i + 1;
    }
    assert(sessions@.subrange(0, sessions@.len() as int) =~= sessions@);
    r
}

/// A recording is encoded again at start-up when it is processing without media, its capture
/// stopped cleanly, and no encoding job is queued or running for it.
pub open spec fn spec_should_reschedule(
    recording: Recording,
    session_status: Option<RecordingSessionStatus>,
    has_incomplete_encode: bool,
) -> bool {
    recording.status == RecordingStatus::Processing && recording.media_path is None
        && session_status == Some(RecordingSessionStatus::Stopped) && !has_incomplete_encode
}

pub fn should_reschedule(
    recording: &Recording,
    session_status: Option<RecordingSessionStatus>,
    has_incomplete_encode: bool,
) -> (r: bool)
    ensures
        r == spec_should_reschedule(*recording, session_status, has_incomplete_encode),
{
    recording.status == RecordingStatus::Processing && recording.media_path.is_none() && match
        session_status {
        Some(RecordingSessionStatus::Stopped) => true,
        _ => false,
    } && !has_incomplete_encode
}

/// The files of a recording directory that processing leaves behind and a cleanup removes.
pub open spec fn spec_cleanup_file_names() -> Seq<Seq<char>> {
    seq![
        "encoding-video.bgra"@,
        "encoding-audio.raw"@,
        "encoding-microphone.raw"@,
        "encoding-source.raw"@,
        "recording.tmp.mp4"@,
        "thumbnail.tmp.jpg"@,
        "transcript-audio.wav"@,
        "whisper-output.json"@,
    ]
}

pub fn cleanup_file_names() -> (r: Vec<&'static str>)
    ensures
        r@.len() == 8,
        forall|k: int| 0 <= k < 8 ==> #[trigger] r@[k]@ == spec_cleanup_file_names()[k],
{
    let mut r: Vec<&'static str> = Vec::new();
    r.push("encoding-video.bgra");
    r.push("encoding-audio.raw");
    r.push("encoding-microphone.raw");
    r.push("encoding-source.raw");
    r.push("recording.tmp.mp4");
    r.push("thumbnail.tmp.jpg");
    r.push("transcript-audio.wav");
    r.push("whisper-output.json");
    r
}

/// Files whose names start with this are left over from an interrupted MP4 mux.
pub const STAGING_MEDIA_PREFIX: &'static str = "recording.tmp.mp4.sb-";

/// What a cleanup does with a recording's capture session files.
#[derive(Debug, Clone, PartialEq, Eq)]
pub struct SessionCleanupPlan {
    /// The session's temporary directory is removed: the recording is completed and its
    /// media file is in place.
    pub remove_temp_directory: Option<String>,
    /// Otherwise the capture files are kept for a retry, and listed.
    pub preserved_paths: Vec<String>,
}

pub open spec fn with_resolved(
    root: Seq<char>,
    paths: Seq<Seq<char>>,
    path: Option<String>,
) -> Seq<Seq<char>> {
    match path {
        Some(p) => paths.push(spec_resolve_path(root, p@)),
        None => paths,
    }
}

pub open spec fn with_resolved_once(
    root: Seq<char>,
    paths: Seq<Seq<char>>,
    path: Option<String>,
) -> Seq<Seq<char>> {
    match path {
        Some(p) => if paths.contains(spec_resolve_path(root, p@)) {
            paths
        } else {
            paths.push(spec_resolve_path(root, p@))
        },
        None => paths,
    }
}

/// The capture files kept for a retry: the temporary directory, the video, the microphone and
/// source audio, the legacy audio unless already listed, and the metadata, each resolved.
pub open spec fn spec_preserved_paths(root: Seq<char>, session: RecordingSession) -> Seq<Seq<char>> {
    let base = seq![
        spec_resolve_path(root, session.temp_directory@),
        spec_resolve_path(root, session.video_path@),
    ];
    with_resolved_once(
        root,
        with_resolved(root, with_resolved(root, base, session.microphone_audio_path), session.source_audio_path),
        session.audio_path,
    ).push(spec_resolve_path(root, session.metadata_path@))
}

fn seq_contains_string(items: &Vec<String>, value: &String) -> (r: bool)
    ensures
        r == string_views(items@).contains(value@),
{
    let mut i: usize = 0;
    while i < items.len()
        invariant
            i <= items@.len(),
            forall|j: int| 0 <= j < i ==> #[trigger] items@[j]@ != value@,
        decreases items@.len() - i,
    {
        if str_equals(items[i].as_str(), value.as_str()) {
            assert(string_views(items@)[i as int] == value@);
            return true;
        }
        i = i + 1;
    }
    assert(!string_views(items@).contains(value@)) by {
        assert forall|j: int| 0 <= j < items@.len() implies string_views(items@)[j] != value@ by {
            assert(items@[j]@ != value@);
        }
    }
    false
}

/// What cleaning a recording's capture session does: remove the temporary directory when the
/// recording is completed and its media file was found, otherwise keep and list the capture
/// files.
pub fn session_cleanup_plan(
    storage: &StorageState,
    recording: &Recording,
    session: &RecordingSession,
    media_is_verified: bool,
) -> (r: SessionCleanupPlan)
    ensures
        recording.status == RecordingStatus::Completed && media_is_verified ==> (
        r.remove_temp_directory matches Some(dir) && dir@ == spec_resolve_path(
            storage.paths.root@,
            session.temp_directory@,
        ) && r.preserved_paths@.len() == 0),
        !(recording.status == RecordingStatus::Completed && media_is_verified) ==> (
        r.remove_temp_directory is None && string_views(r.preserved_paths@)
            == spec_preserved_paths(storage.paths.root@, *session)),
{
    if recording.status == RecordingStatus::Completed && media_is_verified {
        return SessionCleanupPlan {
            remove_temp_directory: Some(storage.resolve_path(session.temp_directory.as_str())),
            preserved_paths: Vec::new(),
        };
    }
    let ghost root = storage.paths.root@;
    let mut preserved: Vec<String> = Vec::new();
    preserved.push(storage.resolve_path(session.temp_directory.as_str()));
    preserved.push(storage.resolve_path(session.video_path.as_str()));
    let ghost base = seq![
        spec_resolve_path(root, session.temp_directory@),
        spec_resolve_path(root, session.video_path@),
    ];
    assert(string_views(preserved@) =~= base);
    let ghost with_mic = with_resolved(root, base, session.microphone_audio_path);
    if let Some(path) = &session.microphone_audio_path {
        preserved.push(storage.resolve_path(path.as_str()));
    }
    assert(string_views(preserved@) =~= with_mic);
    let ghost with_source = with_resolved(root, with_mic, session.source_audio_path);
    if let Some(path) = &session.source_audio_path {
        preserved.push(storage.resolve_path(path.as_str()));
    }
    assert(string_views(preserved@) =~= with_source);
    let ghost with_legacy = with_resolved_once(root, with_source, session.audio_path);
    if let Some(path) = &session.audio_path {
        let legacy = storage.resolve_path(path.as_str());
        if !seq_contains_string(&preserved, &legacy) {
            preserved.push(legacy);
        }
    }
    assert(string_views(preserved@) =~= with_legacy);
    preserved.push(storage.resolve_path(session.metadata_path.as_str()));
    assert(string_views(preserved@) =~= with_legacy.push(
        spec_resolve_path(root, session.metadata_path@),
    ));
    SessionCleanupPlan { remove_temp_directory: None, preserved_paths: preserved }
}

} // verus!

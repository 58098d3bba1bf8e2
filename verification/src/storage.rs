//! Records kept by the local store, the status vocabularies they use, and the pure rules that
//! decide what a stored row becomes after each storage operation.
use vstd::prelude::*;
use vstd::string::*;

pub mod sessions;
pub mod transcripts;

use crate::text::{
    seq_starts_with, str_equals, starts_with, trim, trimmed,
};

verus! {

/// Relative name of the SQLite database inside the application data directory.
pub const DATABASE_FILE_NAME: &'static str = "app.sqlite";

pub const RECORDINGS_DIRECTORY_NAME: &'static str = "recordings";

pub const TEMP_DIRECTORY_NAME: &'static str = "temp";

pub const RECORDING_SESSIONS_DIRECTORY_NAME: &'static str = "recording-sessions";

pub const SCHEMA_VERSION: i64 = 10;

/// Errors of the local store. Outside failures are carried as their messages.
#[derive(Debug, Clone, PartialEq, Eq)]
pub enum StorageError {
    Io(String),
    Database(String),
    Path(String),
    InvalidInput(String),
    NotFound { entity: String, id: String },
}

/// The text a storage error is shown with.
pub open spec fn spec_storage_error_message(error: StorageError) -> Seq<char> {
    match error {
        StorageError::Io(m) => "filesystem error: "@ + m@,
        StorageError::Database(m) => "database error: "@ + m@,
        StorageError::Path(m) => "path error: "@ + m@,
        StorageError::InvalidInput(m) => m@,
        StorageError::NotFound { entity, id } => entity@ + " not found: "@ + id@,
    }
}

impl StorageError {
    pub fn message(&self) -> (r: String)
        ensures
            r@ == spec_storage_error_message(*self),
    {
        match self {
            StorageError::Io(m) => String::from_str("filesystem error: ").concat(m.as_str()),
            StorageError::Database(m) => String::from_str("database error: ").concat(m.as_str()),
            StorageError::Path(m) => String::from_str("path error: ").concat(m.as_str()),
            StorageError::InvalidInput(m) => m.clone(),
            StorageError::NotFound { entity, id } => entity.clone().concat(" not found: ").concat(
                id.as_str(),
            ),
        }
    }
}

/// Status of a recording row.
#[derive(Debug, Clone, Copy, PartialEq, Eq, Structural)]
pub enum RecordingStatus {
    Pending,
    Capturing,
    Processing,
    Completed,
    Failed,
}

/// Status of a transcript row.
#[derive(Debug, Clone, Copy, PartialEq, Eq, Structural)]
pub enum TranscriptStatus {
    NotStarted,
    Processing,
    Completed,
    Failed,
}

/// Status of an optional AI summary row.
#[derive(Debug, Clone, Copy, PartialEq, Eq, Structural)]
pub enum AiStatus {
    Disabled,
    Pending,
    Processing,
    Completed,
    Failed,
}

/// State of a processing job.
#[derive(Debug, Clone, Copy, PartialEq, Eq, Structural)]
pub enum JobState {
    Queued,
    Running,
    Succeeded,
    Failed,
    Cancelled,
}

/// Status of a capture session.
#[derive(Debug, Clone, Copy, PartialEq, Eq, Structural)]
pub enum RecordingSessionStatus {
    Capturing,
    Stopped,
    Failed,
}

/// Which audio streams a capture records.
#[derive(Debug, Clone, Copy, PartialEq, Eq, Structural)]
pub enum CaptureAudioMode {
    NoAudio,
    Microphone,
    Source,
    MicrophoneAndSource,
}

impl RecordingStatus {
    pub open spec fn spec_str(self) -> Seq<char> {
        match self {
            RecordingStatus::Pending => "pending"@,
            RecordingStatus::Capturing => "capturing"@,
            RecordingStatus::Processing => "processing"@,
            RecordingStatus::Completed => "completed"@,
            RecordingStatus::Failed => "failed"@,
        }
    }

    pub open spec fn spec_from_db(value: Seq<char>) -> Option<Self> {
        if value == "pending"@ {
            Some(RecordingStatus::Pending)
        } else if value == "capturing"@ {
            Some(RecordingStatus::Capturing)
        } else if value == "processing"@ {
            Some(RecordingStatus::Processing)
        } else if value == "completed"@ {
            Some(RecordingStatus::Completed)
        } else if value == "failed"@ {
            Some(RecordingStatus::Failed)
        } else {
            None
        }
    }

    pub fn as_str(&self) -> (r: &'static str)
        ensures
            r@ == self.spec_str(),
    {
        match self {
            RecordingStatus::Pending => "pending",
            RecordingStatus::Capturing => "capturing",
            RecordingStatus::Processing => "processing",
            RecordingStatus::Completed => "completed",
            RecordingStatus::Failed => "failed",
        }
    }

    pub fn from_db(value: &str) -> (r: Option<Self>)
        ensures
            r == Self::spec_from_db(value@),
    {
        if str_equals(value, "pending") {
            Some(RecordingStatus::Pending)
        } else if str_equals(value, "capturing") {
            Some(RecordingStatus::Capturing)
        } else if str_equals(value, "processing") {
            Some(RecordingStatus::Processing)
        } else if str_equals(value, "completed") {
            Some(RecordingStatus::Completed)
        } else if str_equals(value, "failed") {
            Some(RecordingStatus::Failed)
        } else {
            None
        }
    }
}

impl TranscriptStatus {
    pub open spec fn spec_str(self) -> Seq<char> {
        match self {
            TranscriptStatus::NotStarted => "not_started"@,
            TranscriptStatus::Processing => "processing"@,
            TranscriptStatus::Completed => "completed"@,
            TranscriptStatus::Failed => "failed"@,
        }
    }

    pub open spec fn spec_from_db(value: Seq<char>) -> Option<Self> {
        if value == "not_started"@ {
            Some(TranscriptStatus::NotStarted)
        } else if value == "processing"@ {
            Some(TranscriptStatus::Processing)
        } else if value == "completed"@ {
            Some(TranscriptStatus::Completed)
        } else if value == "failed"@ {
            Some(TranscriptStatus::Failed)
        } else {
            None
        }
    }

    pub fn as_str(&self) -> (r: &'static str)
        ensures
            r@ == self.spec_str(),
    {
        match self {
            TranscriptStatus::NotStarted => "not_started",
            TranscriptStatus::Processing => "processing",
            TranscriptStatus::Completed => "completed",
            TranscriptStatus::Failed => "failed",
        }
    }

    pub fn from_db(value: &str) -> (r: Option<Self>)
        ensures
            r == Self::spec_from_db(value@),
    {
        if str_equals(value, "not_started") {
            Some(TranscriptStatus::NotStarted)
        } else if str_equals(value, "processing") {
            Some(TranscriptStatus::Processing)
        } else if str_equals(value, "completed") {
            Some(TranscriptStatus::Completed)
        } else if str_equals(value, "failed") {
            Some(TranscriptStatus::Failed)
        } else {
            None
        }
    }
}

impl AiStatus {
    pub open spec fn spec_str(self) -> Seq<char> {
        match self {
            AiStatus::Disabled => "disabled"@,
            AiStatus::Pending => "pending"@,
            AiStatus::Processing => "processing"@,
            AiStatus::Completed => "completed"@,
            AiStatus::Failed => "failed"@,
        }
    }

    pub open spec fn spec_from_db(value: Seq<char>) -> Option<Self> {
        if value == "disabled"@ {
            Some(AiStatus::Disabled)
        } else if value == "pending"@ {
            Some(AiStatus::Pending)
        } else if value == "processing"@ {
            Some(AiStatus::Processing)
        } else if value == "completed"@ {
            Some(AiStatus::Completed)
        } else if value == "failed"@ {
            Some(AiStatus::Failed)
        } else {
            None
        }
    }

    pub fn as_str(&self) -> (r: &'static str)
        ensures
            r@ == self.spec_str(),
    {
        match self {
            AiStatus::Disabled => "disabled",
            AiStatus::Pending => "pending",
            AiStatus::Processing => "processing",
            AiStatus::Completed => "completed",
            AiStatus::Failed => "failed",
        }
    }

    pub fn from_db(value: &str) -> (r: Option<Self>)
        ensures
            r == Self::spec_from_db(value@),
    {
        if str_equals(value, "disabled") {
            Some(AiStatus::Disabled)
        } else if str_equals(value, "pending") {
            Some(AiStatus::Pending)
        } else if str_equals(value, "processing") {
            Some(AiStatus::Processing)
        } else if str_equals(value, "completed") {
            Some(AiStatus::Completed)
        } else if str_equals(value, "failed") {
            Some(AiStatus::Failed)
        } else {
            None
        }
    }
}

impl JobState {
    pub open spec fn spec_str(self) -> Seq<char> {
        match self {
            JobState::Queued => "queued"@,
            JobState::Running => "running"@,
            JobState::Succeeded => "succeeded"@,
            JobState::Failed => "failed"@,
            JobState::Cancelled => "cancelled"@,
        }
    }

    pub open spec fn spec_from_db(value: Seq<char>) -> Option<Self> {
        if value == "queued"@ {
            Some(JobState::Queued)
        } else if value == "running"@ {
            Some(JobState::Running)
        } else if value == "succeeded"@ {
            Some(JobState::Succeeded)
        } else if value == "failed"@ {
            Some(JobState::Failed)
        } else if value == "cancelled"@ {
            Some(JobState::Cancelled)
        } else {
            None
        }
    }

    pub fn as_str(&self) -> (r: &'static str)
        ensures
            r@ == self.spec_str(),
    {
        match self {
            JobState::Queued => "queued",
            JobState::Running => "running",
            JobState::Succeeded => "succeeded",
            JobState::Failed => "failed",
            JobState::Cancelled => "cancelled",
        }
    }

    pub fn from_db(value: &str) -> (r: Option<Self>)
        ensures
            r == Self::spec_from_db(value@),
    {
        if str_equals(value, "queued") {
            Some(JobState::Queued)
        } else if str_equals(value, "running") {
            Some(JobState::Running)
        } else if str_equals(value, "succeeded") {
            Some(JobState::Succeeded)
        } else if str_equals(value, "failed") {
            Some(JobState::Failed)
        } else if str_equals(value, "cancelled") {
            Some(JobState::Cancelled)
        } else {
            None
        }
    }

    /// Succeeded, failed and cancelled jobs are finished.
    pub open spec fn is_terminal(self) -> bool {
        self == JobState::Succeeded || self == JobState::Failed || self == JobState::Cancelled
    }
}

impl RecordingSessionStatus {
    pub open spec fn spec_str(self) -> Seq<char> {
        match self {
            RecordingSessionStatus::Capturing => "capturing"@,
            RecordingSessionStatus::Stopped => "stopped"@,
            RecordingSessionStatus::Failed => "failed"@,
        }
    }

    pub open spec fn spec_from_db(value: Seq<char>) -> Option<Self> {
        if value == "capturing"@ {
            Some(RecordingSessionStatus::Capturing)
        } else if value == "stopped"@ {
            Some(RecordingSessionStatus::Stopped)
        } else if value == "failed"@ {
            Some(RecordingSessionStatus::Failed)
        } else {
            None
        }
    }

    pub fn as_str(&self) -> (r: &'static str)
        ensures
            r@ == self.spec_str(),
    {
        match self {
            RecordingSessionStatus::Capturing => "capturing",
            RecordingSessionStatus::Stopped => "stopped",
            RecordingSessionStatus::Failed => "failed",
        }
    }

    pub fn from_db(value: &str) -> (r: Option<Self>)
        ensures
            r == Self::spec_from_db(value@),
    {
        if str_equals(value, "capturing") {
            Some(RecordingSessionStatus::Capturing)
        } else if str_equals(value, "stopped") {
            Some(RecordingSessionStatus::Stopped)
        } else if str_equals(value, "failed") {
            Some(RecordingSessionStatus::Failed)
        } else {
            None
        }
    }
}

impl CaptureAudioMode {
    pub open spec fn spec_str(self) -> Seq<char> {
        match self {
            CaptureAudioMode::NoAudio => "none"@,
            CaptureAudioMode::Microphone => "microphone"@,
            CaptureAudioMode::Source => "source"@,
            CaptureAudioMode::MicrophoneAndSource => "microphone_and_source"@,
        }
    }

    pub open spec fn spec_from_db(value: Seq<char>) -> Option<Self> {
        if value == "none"@ {
            Some(CaptureAudioMode::NoAudio)
        } else if value == "microphone"@ {
            Some(CaptureAudioMode::Microphone)
        } else if value == "source"@ {
            Some(CaptureAudioMode::Source)
        } else if value == "microphone_and_source"@ {
            Some(CaptureAudioMode::MicrophoneAndSource)
        } else {
            None
        }
    }

    pub fn as_str(&self) -> (r: &'static str)
        ensures
            r@ == self.spec_str(),
    {
        match self {
            CaptureAudioMode::NoAudio => "none",
            CaptureAudioMode::Microphone => "microphone",
            CaptureAudioMode::Source => "source",
            CaptureAudioMode::MicrophoneAndSource => "microphone_and_source",
        }
    }

    pub fn from_db(value: &str) -> (r: Option<Self>)
        ensures
            r == Self::spec_from_db(value@),
    {
        if str_equals(value, "none") {
            Some(CaptureAudioMode::NoAudio)
        } else if str_equals(value, "microphone") {
            Some(CaptureAudioMode::Microphone)
        } else if str_equals(value, "source") {
            Some(CaptureAudioMode::Source)
        } else if str_equals(value, "microphone_and_source") {
            Some(CaptureAudioMode::MicrophoneAndSource)
        } else {
            None
        }
    }

    pub open spec fn spec_includes_microphone(self) -> bool {
        self == CaptureAudioMode::Microphone || self == CaptureAudioMode::MicrophoneAndSource
    }

    pub open spec fn spec_includes_source_audio(self) -> bool {
        self == CaptureAudioMode::Source || self == CaptureAudioMode::MicrophoneAndSource
    }

    pub fn includes_microphone(&self) -> (r: bool)
        ensures
            r == self.spec_includes_microphone(),
    {
        match self {
            CaptureAudioMode::Microphone | CaptureAudioMode::MicrophoneAndSource => true,
            _ => false,
        }
    }

    pub fn includes_source_audio(&self) -> (r: bool)
        ensures
            r == self.spec_includes_source_audio(),
    {
        match self {
            CaptureAudioMode::Source | CaptureAudioMode::MicrophoneAndSource => true,
            _ => false,
        }
    }

    /// The mode that a stored legacy `include_microphone` flag stands for.
    pub fn from_include_microphone(include_microphone: bool) -> (r: Self)
        ensures
            r == (if include_microphone {
                CaptureAudioMode::Microphone
            } else {
                CaptureAudioMode::NoAudio
            }),
    {
        if include_microphone {
            CaptureAudioMode::Microphone
        } else {
            CaptureAudioMode::NoAudio
        }
    }
}

/// Every recording status word read back from the store names the status that was written.
pub proof fn lemma_recording_status_round_trip(s: RecordingStatus)
    ensures
        RecordingStatus::spec_from_db(s.spec_str()) == Some(s),
{
    reveal_strlit("pending");
    reveal_strlit("capturing");
    reveal_strlit("processing");
    reveal_strlit("completed");
    reveal_strlit("failed");
    assert("capturing"@[1] != "completed"@[1]);
    assert("pending"@.len() == 7);
    assert("capturing"@.len() == 9);
    assert("processing"@.len() == 10);
    assert("completed"@.len() == 9);
    assert("failed"@.len() == 6);
    assert("capturing"@[1] != "completed"@[1]);
}

/// Every transcript status word read back from the store names the status that was written.
pub proof fn lemma_transcript_status_round_trip(s: TranscriptStatus)
    ensures
        TranscriptStatus::spec_from_db(s.spec_str()) == Some(s),
{
    reveal_strlit("not_started");
    reveal_strlit("processing");
    reveal_strlit("completed");
    reveal_strlit("failed");
    assert("not_started"@.len() == 11);
    assert("processing"@.len() == 10);
    assert("completed"@.len() == 9);
    assert("failed"@.len() == 6);

}

/// Every AI summary status word read back from the store names the status that was written.
pub proof fn lemma_ai_status_round_trip(s: AiStatus)
    ensures
        AiStatus::spec_from_db(s.spec_str()) == Some(s),
{
    reveal_strlit("disabled");
    reveal_strlit("pending");
    reveal_strlit("processing");
    reveal_strlit("completed");
    reveal_strlit("failed");
    assert("disabled"@.len() == 8);
    assert("pending"@.len() == 7);
    assert("processing"@.len() == 10);
    assert("completed"@.len() == 9);
    assert("failed"@.len() == 6);

}

/// Every job state word read back from the store names the state that was written.
pub proof fn lemma_job_state_round_trip(s: JobState)
    ensures
        JobState::spec_from_db(s.spec_str()) == Some(s),
{
    reveal_strlit("queued");
    reveal_strlit("running");
    reveal_strlit("succeeded");
    reveal_strlit("failed");
    reveal_strlit("cancelled");
    assert("queued"@.len() == 6);
    assert("running"@.len() == 7);
    assert("succeeded"@.len() == 9);
    assert("failed"@.len() == 6);
    assert("cancelled"@.len() == 9);
    assert("queued"@[0] != "failed"@[0]);
    assert("succeeded"@[0] != "cancelled"@[0]);
}

/// Every session status word read back from the store names the status that was written.
pub proof fn lemma_session_status_round_trip(s: RecordingSessionStatus)
    ensures
        RecordingSessionStatus::spec_from_db(s.spec_str()) == Some(s),
{
    reveal_strlit("capturing");
    reveal_strlit("stopped");
    reveal_strlit("failed");
    assert("capturing"@.len() == 9);
    assert("stopped"@.len() == 7);
    assert("failed"@.len() == 6);

}

/// Every audio mode word read back from the store names the mode that was written.
pub proof fn lemma_audio_mode_round_trip(s: CaptureAudioMode)
    ensures
        CaptureAudioMode::spec_from_db(s.spec_str()) == Some(s),
{
    reveal_strlit("none");
    reveal_strlit("microphone");
    reveal_strlit("source");
    reveal_strlit("microphone_and_source");
    assert("none"@.len() == 4);
    assert("microphone"@.len() == 10);
    assert("source"@.len() == 6);
    assert("microphone_and_source"@.len() == 21);
}

/// A row that only stored the microphone flag reads back as a mode that records the
/// microphone exactly when the flag was set.
pub proof fn lemma_audio_mode_from_legacy_flag(include_microphone: bool)
    ensures
        (if include_microphone {
            CaptureAudioMode::Microphone
        } else {
            CaptureAudioMode::NoAudio
        }).spec_includes_microphone() == include_microphone,
{
}

/// A copy of an optional string.
pub fn clone_opt_string(value: &Option<String>) -> (r: Option<String>)
    ensures
        r == *value,
{
    match value {
        Some(text) => Some(text.clone()),
        None => None,
    }
}

/// A trimmed, non-empty setting, or nothing.
pub open spec fn spec_normalized_setting(value: Option<Seq<char>>) -> Option<Seq<char>> {
    match value {
        Some(text) => if trimmed(text).len() > 0 {
            Some(trimmed(text))
        } else {
            None
        },
        None => None,
    }
}

pub open spec fn opt_view(value: Option<String>) -> Option<Seq<char>> {
    match value {
        Some(text) => Some(text@),
        None => None,
    }
}

pub fn normalized_setting(value: Option<String>) -> (r: Option<String>)
    ensures
        opt_view(r) == spec_normalized_setting(opt_view(value)),
{
    match value {
        Some(text) => {
            let trimmed_text = trim(text.as_str());
            if trimmed_text.unicode_len() > 0 {
                Some(trimmed_text.to_owned())
            } else {
                None
            }
        },
        None => None,
    }
}

/// The title a new recording gets: the trimmed title, or "Untitled recording".
pub open spec fn spec_normalize_title(title: Option<Seq<char>>) -> Seq<char> {
    match spec_normalized_setting(title) {
        Some(text) => text,
        None => "Untitled recording"@,
    }
}

pub fn normalize_title(title: Option<String>) -> (r: String)
    ensures
        r@ == spec_normalize_title(opt_view(title)),
{
    match normalized_setting(title) {
        Some(text) => text,
        None => String::from_str("Untitled recording"),
    }
}

/// The capture choices kept between sessions.
#[derive(Debug, Clone, PartialEq, Eq)]
pub struct CaptureSelection {
    pub video_source_id: Option<String>,
    pub screen_source_id: Option<String>,
    pub microphone_device_id: Option<String>,
    pub audio_mode: CaptureAudioMode,
    pub include_microphone: bool,
    pub updated_at: Option<String>,
}

/// A request to store new capture choices.
#[derive(Debug, Clone, PartialEq, Eq)]
pub struct SaveCaptureSelectionInput {
    pub video_source_id: Option<String>,
    pub screen_source_id: Option<String>,
    pub microphone_device_id: Option<String>,
    pub audio_mode: Option<CaptureAudioMode>,
    pub include_microphone: Option<bool>,
}

pub fn default_capture_selection() -> (r: CaptureSelection)
    ensures
        r.video_source_id is None,
        r.screen_source_id is None,
        r.microphone_device_id is None,
        r.audio_mode == CaptureAudioMode::Microphone,
        r.include_microphone,
        r.updated_at is None,
{
    CaptureSelection {
        video_source_id: None,
        screen_source_id: None,
        microphone_device_id: None,
        audio_mode: CaptureAudioMode::Microphone,
        include_microphone: true,
        updated_at: None,
    }
}

/// The mode stored for a save request: the requested mode, or the legacy microphone flag
/// (which defaults to on).
pub open spec fn spec_requested_audio_mode(input: SaveCaptureSelectionInput) -> CaptureAudioMode {
    match input.audio_mode {
        Some(mode) => mode,
        None => match input.include_microphone {
            Some(false) => CaptureAudioMode::NoAudio,
            _ => CaptureAudioMode::Microphone,
        },
    }
}

/// The source id stored for a save request: the video source, else the legacy screen source,
/// trimmed and non-empty.
pub open spec fn spec_requested_source_id(input: SaveCaptureSelectionInput) -> Option<Seq<char>> {
    spec_normalized_setting(
        match input.video_source_id {
            Some(id) => Some(id@),
            None => opt_view(input.screen_source_id),
        },
    )
}

/// The selection that saving `input` at `updated_at` stores.
pub fn capture_selection_from_input(input: SaveCaptureSelectionInput, updated_at: String) -> (r:
    CaptureSelection)
    ensures
        opt_view(r.video_source_id) == spec_requested_source_id(input),
        r.screen_source_id == r.video_source_id,
        r.microphone_device_id == input.microphone_device_id,
        r.audio_mode == spec_requested_audio_mode(input),
        r.include_microphone == r.audio_mode.spec_includes_microphone(),
        r.updated_at == Some(updated_at),
        is_saved_selection(r),
{
    let requested = match input.video_source_id {
        Some(id) => Some(id),
        None => input.screen_source_id,
    };
    let video_source_id = normalized_setting(requested);
    let audio_mode = match input.audio_mode {
        Some(mode) => mode,
        None => {
            let wants_microphone = match input.include_microphone {
                Some(flag) => flag,
                None => true,
            };
            CaptureAudioMode::from_include_microphone(wants_microphone)
        },
    };
    let include_microphone = audio_mode.includes_microphone();
    CaptureSelection {
        screen_source_id: clone_opt_string(&video_source_id),
        video_source_id,
        microphone_device_id: input.microphone_device_id,
        audio_mode,
        include_microphone,
        updated_at: Some(updated_at),
    }
}

/// A stored id column read as "absent" when it is empty.
pub open spec fn spec_non_empty(value: Option<Seq<char>>) -> Option<Seq<char>> {
    match value {
        Some(text) => if text.len() > 0 {
            Some(text)
        } else {
            None
        },
        None => None,
    }
}

fn non_empty(value: &Option<String>) -> (r: Option<String>)
    ensures
        opt_view(r) == spec_non_empty(opt_view(*value)),
{
    match value {
        Some(text) => if text.as_str().unicode_len() > 0 {
            Some(text.clone())
        } else {
            None
        },
        None => None,
    }
}

/// The audio mode a stored preferences row reads as: its mode word when it has one, else the
/// legacy microphone flag; none for an unknown word.
pub open spec fn spec_row_audio_mode(word: Option<Seq<char>>, include_microphone_flag: bool) -> Option<
    CaptureAudioMode,
> {
    match spec_non_empty(word) {
        Some(w) => CaptureAudioMode::spec_from_db(w),
        None => Some(
            if include_microphone_flag {
                CaptureAudioMode::Microphone
            } else {
                CaptureAudioMode::NoAudio
            },
        ),
    }
}

/// The video source a stored preferences row reads as: its video source, else its screen
/// source, each only when not empty.
pub open spec fn spec_row_video_source(video: Option<Seq<char>>, screen: Option<Seq<char>>) -> Option<
    Seq<char>,
> {
    match spec_non_empty(video) {
        Some(v) => Some(v),
        None => spec_non_empty(screen),
    }
}

/// What every saved selection satisfies: a non-empty source id, the screen source equal to the
/// video source, and the microphone flag that its mode implies.
pub open spec fn is_saved_selection(s: CaptureSelection) -> bool {
    &&& spec_non_empty(opt_view(s.video_source_id)) == opt_view(s.video_source_id)
    &&& s.screen_source_id == s.video_source_id
    &&& s.include_microphone == s.audio_mode.spec_includes_microphone()
}

/// A saved selection, stored with its mode word, reads back as it was saved.
pub proof fn lemma_capture_selection_round_trip(s: CaptureSelection)
    requires
        is_saved_selection(s),
    ensures
        spec_row_audio_mode(Some(s.audio_mode.spec_str()), s.include_microphone) == Some(
            s.audio_mode,
        ),
        spec_row_video_source(opt_view(s.video_source_id), opt_view(s.screen_source_id))
            == opt_view(s.video_source_id),
{
    lemma_audio_mode_round_trip(s.audio_mode);
    assert(s.audio_mode.spec_str().len() > 0) by {
        reveal_strlit("none");
        reveal_strlit("microphone");
        reveal_strlit("source");
        reveal_strlit("microphone_and_source");
    }
}

/// The selection read from a stored preferences row. Rows written by older versions may have
/// an empty video source (the screen source then stands for it) and no audio mode word (the
/// microphone flag then decides).
pub fn capture_selection_from_row(
    video_source_id: Option<String>,
    screen_source_id: Option<String>,
    microphone_device_id: Option<String>,
    audio_mode_word: Option<String>,
    include_microphone_flag: bool,
    updated_at: Option<String>,
) -> (r: Result<CaptureSelection, StorageError>)
    ensures
        ({
            let mode = spec_row_audio_mode(opt_view(audio_mode_word), include_microphone_flag);
            match mode {
                Some(m) => r is Ok && opt_view(r->Ok_0.video_source_id) == spec_row_video_source(
                    opt_view(video_source_id),
                    opt_view(screen_source_id),
                ) && r->Ok_0.screen_source_id == screen_source_id
                    && r->Ok_0.microphone_device_id == microphone_device_id && r->Ok_0.audio_mode
                    == m && r->Ok_0.include_microphone == m.spec_includes_microphone()
                    && r->Ok_0.updated_at == updated_at,
                None => r is Err,
            }
        }),
{
    let video = match non_empty(&video_source_id) {
        Some(v) => Some(v),
        None => non_empty(&screen_source_id),
    };
    let mode = match non_empty(&audio_mode_word) {
        Some(word) => match CaptureAudioMode::from_db(word.as_str()) {
            Some(m) => m,
            None => {
                return Err(
                    StorageError::InvalidInput(
                        String::from_str("invalid CaptureAudioMode value: ").concat(word.as_str()),
                    ),
                );
            },
        },
        None => CaptureAudioMode::from_include_microphone(include_microphone_flag),
    };
    Ok(
        CaptureSelection {
            video_source_id: video,
            screen_source_id,
            microphone_device_id,
            audio_mode: mode,
            include_microphone: mode.includes_microphone(),
            updated_at,
        },
    )
}

/// Optional AI settings as stored, including the key.
#[derive(Debug, Clone, PartialEq, Eq)]
pub struct AiSettingsRecord {
    pub enabled: bool,
    pub provider: String,
    pub model_name: String,
    pub endpoint_url: String,
    pub api_key: Option<String>,
    pub updated_at: Option<String>,
}

/// Optional AI settings as shown to the interface: the key itself never leaves the store.
#[derive(Debug, Clone, PartialEq, Eq)]
pub struct AiSettings {
    pub enabled: bool,
    pub provider: String,
    pub model_name: String,
    pub endpoint_url: String,
    pub has_api_key: bool,
    pub updated_at: Option<String>,
}

/// A request to change the optional AI settings.
#[derive(Debug, Clone, PartialEq, Eq)]
pub struct SaveAiSettingsInput {
    pub enabled: bool,
    pub provider: Option<String>,
    pub model_name: Option<String>,
    pub endpoint_url: Option<String>,
    pub api_key: Option<String>,
    pub clear_api_key: Option<bool>,
}

impl AiSettingsRecord {
    pub fn copy(&self) -> (r: AiSettingsRecord)
        ensures
            r == *self,
    {
        AiSettingsRecord {
            enabled: self.enabled,
            provider: self.provider.clone(),
            model_name: self.model_name.clone(),
            endpoint_url: self.endpoint_url.clone(),
            api_key: clone_opt_string(&self.api_key),
            updated_at: clone_opt_string(&self.updated_at),
        }
    }

    pub fn public_settings(&self) -> (r: AiSettings)
        ensures
            r.enabled == self.enabled,
            r.provider == self.provider,
            r.model_name == self.model_name,
            r.endpoint_url == self.endpoint_url,
            r.has_api_key == self.api_key is Some,
            r.updated_at == self.updated_at,
    {
        AiSettings {
            enabled: self.enabled,
            provider: self.provider.clone(),
            model_name: self.model_name.clone(),
            endpoint_url: self.endpoint_url.clone(),
            has_api_key: self.api_key.is_some(),
            updated_at: clone_opt_string(&self.updated_at),
        }
    }
}

/// The settings in force before any are saved: AI off, OpenAI-compatible endpoint, no model,
/// no key.
pub fn default_ai_settings_record() -> (r: AiSettingsRecord)
    ensures
        !r.enabled,
        r.provider@ == "openai_compatible"@,
        r.model_name@ == ""@,
        r.endpoint_url@ == "https://api.openai.com/v1/chat/completions"@,
        r.api_key is None,
        r.updated_at is None,
{
    AiSettingsRecord {
        enabled: false,
        provider: String::from_str("openai_compatible"),
        model_name: String::from_str(""),
        endpoint_url: String::from_str("https://api.openai.com/v1/chat/completions"),
        api_key: None,
        updated_at: None,
    }
}

/// Why a settings combination is refused, if it is.
pub open spec fn spec_ai_settings_error(
    enabled: bool,
    provider: Seq<char>,
    model_name: Seq<char>,
    endpoint_url: Seq<char>,
    has_api_key: bool,
) -> Option<Seq<char>> {
    if provider != "openai_compatible"@ {
        Some("Optional AI currently supports OpenAI-compatible chat completion providers."@)
    } else if !seq_starts_with(endpoint_url, "https://"@) && !seq_starts_with(
        endpoint_url,
        "http://"@,
    ) {
        Some("Optional AI endpoint must start with http:// or https://."@)
    } else if enabled && model_name.len() == 0 {
        Some("Optional AI requires a model name before it can be enabled."@)
    } else if enabled && !has_api_key {
        Some("Optional AI requires an API key before it can be enabled."@)
    } else {
        None
    }
}

pub fn validate_ai_settings(
    enabled: bool,
    provider: &str,
    model_name: &str,
    endpoint_url: &str,
    api_key: Option<&str>,
) -> (r: Result<(), StorageError>)
    ensures
        match spec_ai_settings_error(
            enabled,
            provider@,
            model_name@,
            endpoint_url@,
            api_key is Some,
        ) {
            Some(message) => r matches Err(StorageError::InvalidInput(m)) && m@ == message,
            None => r is Ok,
        },
{
    if !str_equals(provider, "openai_compatible") {
        return Err(
            StorageError::InvalidInput(
                String::from_str(
                    "Optional AI currently supports OpenAI-compatible chat completion providers.",
                ),
            ),
        );
    }
    if !starts_with(endpoint_url, "https://") && !starts_with(endpoint_url, "http://") {
        return Err(
            StorageError::InvalidInput(
                String::from_str("Optional AI endpoint must start with http:// or https://."),
            ),
        );
    }
    if enabled && model_name.unicode_len() == 0 {
        return Err(
            StorageError::InvalidInput(
                String::from_str("Optional AI requires a model name before it can be enabled."),
            ),
        );
    }
    if enabled && api_key.is_none() {
        return Err(
            StorageError::InvalidInput(
                String::from_str("Optional AI requires an API key before it can be enabled."),
            ),
        );
    }
    Ok(())
}

/// What saving `input` over `existing` stores: each given setting (trimmed, non-empty) replaces
/// the stored one; the key is cleared on request, else replaced when a new one is given.
pub open spec fn spec_merged_ai_settings(
    existing: AiSettingsRecord,
    input: SaveAiSettingsInput,
) -> (bool, Seq<char>, Seq<char>, Seq<char>, Option<Seq<char>>) {
    spec_merged_over(
        existing.provider@,
        existing.model_name@,
        existing.endpoint_url@,
        opt_view(existing.api_key),
        input,
    )
}

/// What saving `input` stores over settings with the given provider, model name, endpoint
/// and key.
pub open spec fn spec_merged_over(
    provider: Seq<char>,
    model_name: Seq<char>,
    endpoint_url: Seq<char>,
    api_key: Option<Seq<char>>,
    input: SaveAiSettingsInput,
) -> (bool, Seq<char>, Seq<char>, Seq<char>, Option<Seq<char>>) {
    let provider = match spec_normalized_setting(opt_view(input.provider)) {
        Some(p) => p,
        None => provider,
    };
    let model_name = match spec_normalized_setting(opt_view(input.model_name)) {
        Some(m) => m,
        None => model_name,
    };
    let endpoint_url = match spec_normalized_setting(opt_view(input.endpoint_url)) {
        Some(e) => e,
        None => endpoint_url,
    };
    let api_key = if input.clear_api_key == Some(true) {
        None
    } else {
        match spec_normalized_setting(opt_view(input.api_key)) {
            Some(k) => Some(k),
            None => api_key,
        }
    };
    (input.enabled, provider, model_name, endpoint_url, api_key)
}

/// What saving `input` stores over the stored settings, or over the defaults when none are
/// stored.
pub open spec fn spec_merged_over_stored(
    stored: Option<AiSettingsRecord>,
    input: SaveAiSettingsInput,
) -> (bool, Seq<char>, Seq<char>, Seq<char>, Option<Seq<char>>) {
    match stored {
        Some(record) => spec_merged_ai_settings(record, input),
        None => spec_merged_over(
            "openai_compatible"@,
            ""@,
            "https://api.openai.com/v1/chat/completions"@,
            None,
            input,
        ),
    }
}

/// Optional AI is never saved enabled without an API key and a model name: a save that would
/// enable it without a key (none given, none stored, or the stored one cleared) is refused with
/// the key message once provider, endpoint and model name are acceptable.
pub proof fn lemma_enabled_ai_settings_have_key(existing: AiSettingsRecord, input: SaveAiSettingsInput)
    ensures
        ({
            let (enabled, provider, model_name, endpoint_url, api_key) = spec_merged_ai_settings(
                existing,
                input,
            );
            &&& (spec_ai_settings_error(enabled, provider, model_name, endpoint_url, api_key is Some)
                is None && enabled) ==> api_key is Some && model_name.len() > 0
            &&& (enabled && api_key is None && provider == "openai_compatible"@ && (seq_starts_with(
                endpoint_url,
                "https://"@,
            ) || seq_starts_with(endpoint_url, "http://"@)) && model_name.len() > 0)
                ==> spec_ai_settings_error(enabled, provider, model_name, endpoint_url, false)
                == Some("Optional AI requires an API key before it can be enabled."@)
        }),
{
}

/// The record that saving `input` over `existing` at `updated_at` stores, or why it is refused.
pub fn merge_ai_settings(existing: AiSettingsRecord, input: SaveAiSettingsInput, updated_at: String) -> (r:
    Result<AiSettingsRecord, StorageError>)
    ensures
        ({
            let (enabled, provider, model_name, endpoint_url, api_key) = spec_merged_ai_settings(
                existing,
                input,
            );
            match spec_ai_settings_error(
                enabled,
                provider,
                model_name,
                endpoint_url,
                api_key is Some,
            ) {
                Some(message) => r matches Err(StorageError::InvalidInput(m)) && m@ == message,
                None => r matches Ok(record) && record.enabled == enabled && record.provider@
                    == provider && record.model_name@ == model_name && record.endpoint_url@
                    == endpoint_url && opt_view(record.api_key) == api_key && record.updated_at
                    == Some(updated_at),
            }
        }),
{
    let enabled = input.enabled;
    let provider = match normalized_setting(input.provider) {
        Some(p) => p,
        None => existing.provider,
    };
    let model_name = match normalized_setting(input.model_name) {
        Some(m) => m,
        None => existing.model_name,
    };
    let endpoint_url = match normalized_setting(input.endpoint_url) {
        Some(e) => e,
        None => existing.endpoint_url,
    };
    let clear = match input.clear_api_key {
        Some(flag) => flag,
        None => false,
    };
    let api_key = if clear {
        None
    } else {
        match normalized_setting(input.api_key) {
            Some(k) => Some(k),
            None => existing.api_key,
        }
    };
    let key_ref: Option<&str> = match &api_key {
        Some(k) => Some(k.as_str()),
        None => None,
    };
    match validate_ai_settings(
        enabled,
        provider.as_str(),
        model_name.as_str(),
        endpoint_url.as_str(),
        key_ref,
    ) {
        Err(error) => Err(error),
        Ok(()) => Ok(
            AiSettingsRecord {
                enabled,
                provider,
                model_name,
                endpoint_url,
                api_key,
                updated_at: Some(updated_at),
            },
        ),
    }
}


/// The settings as the interface sees them: the stored record without its key.
pub open spec fn spec_public_settings(record: AiSettingsRecord) -> AiSettings {
    AiSettings {
        enabled: record.enabled,
        provider: record.provider,
        model_name: record.model_name,
        endpoint_url: record.endpoint_url,
        has_api_key: record.api_key is Some,
        updated_at: record.updated_at,
    }
}

/// The settings a read reports: those of the stored record, or the defaults when none is
/// stored.
pub fn read_ai_settings(stored: &Option<AiSettingsRecord>) -> (r: AiSettings)
    ensures
        stored matches Some(record) ==> r == spec_public_settings(*record),
        stored is None ==> !r.enabled && r.provider@ == "openai_compatible"@ && r.model_name@
            == ""@ && r.endpoint_url@ == "https://api.openai.com/v1/chat/completions"@
            && !r.has_api_key && r.updated_at is None,
{
    match stored {
        Some(record) => record.public_settings(),
        None => default_ai_settings_record().public_settings(),
    }
}

/// What a save of `input` at `updated_at` over `stored` leaves stored (`after`) and replies:
/// a refused save keeps the stored settings and replies with the refusal; an accepted one
/// stores the merged settings and replies with them as a read reports them.
pub open spec fn is_ai_settings_save(
    stored: Option<AiSettingsRecord>,
    input: SaveAiSettingsInput,
    updated_at: String,
    after: Option<AiSettingsRecord>,
    reply: Result<AiSettings, StorageError>,
) -> bool {
    let (enabled, provider, model_name, endpoint_url, api_key) = spec_merged_over_stored(
        stored,
        input,
    );
    match spec_ai_settings_error(enabled, provider, model_name, endpoint_url, api_key is Some) {
        Some(message) => {
            &&& reply matches Err(StorageError::InvalidInput(m)) && m@ == message
            &&& after == stored
        },
        None => {
            &&& after matches Some(record) && record.enabled == enabled && record.provider@
                == provider && record.model_name@ == model_name && record.endpoint_url@
                == endpoint_url && opt_view(record.api_key) == api_key && record.updated_at
                == Some(updated_at)
            &&& reply == Ok::<AiSettings, StorageError>(spec_public_settings(after->0))
        },
    }
}

/// Saves `input` over the stored settings: the settings then stored, and the reply.
pub fn save_ai_settings_step(
    stored: Option<AiSettingsRecord>,
    input: SaveAiSettingsInput,
    updated_at: String,
) -> (r: (Option<AiSettingsRecord>, Result<AiSettings, StorageError>))
    ensures
        is_ai_settings_save(stored, input, updated_at, r.0, r.1),
{
    let existing = match &stored {
        Some(record) => record.copy(),
        None => default_ai_settings_record(),
    };
    match merge_ai_settings(existing, input, updated_at) {
        Ok(record) => {
            let reply = record.public_settings();
            (Some(record), Ok(reply))
        },
        Err(error) => (stored, Err(error)),
    }
}

/// A refused save of the AI settings leaves what a read reports as it was, and an accepted
/// one replies with exactly what a read reports afterwards; enabled settings so saved always
/// have a key and a model name.
pub proof fn lemma_ai_settings_save_reads_back(
    stored: Option<AiSettingsRecord>,
    input: SaveAiSettingsInput,
    updated_at: String,
    after: Option<AiSettingsRecord>,
    reply: Result<AiSettings, StorageError>,
)
    requires
        is_ai_settings_save(stored, input, updated_at, after, reply),
    ensures
        reply is Err ==> after == stored,
        reply matches Ok(settings) ==> after matches Some(record) && spec_public_settings(record)
            == settings,
        reply matches Ok(settings) ==> (settings.enabled ==> settings.has_api_key
            && settings.model_name@.len() > 0),
{
}

/// The first of two optional values that is present.
pub open spec fn first_present<T>(preferred: Option<T>, fallback: Option<T>) -> Option<T> {
    match preferred {
        Some(v) => Some(v),
        None => fallback,
    }
}

fn or_string(preferred: Option<String>, fallback: Option<String>) -> (r: Option<String>)
    ensures
        r == first_present(preferred, fallback),
{
    match preferred {
        Some(v) => Some(v),
        None => fallback,
    }
}

fn or_i64(preferred: Option<i64>, fallback: Option<i64>) -> (r: Option<i64>)
    ensures
        r == first_present(preferred, fallback),
{
    match preferred {
        Some(v) => Some(v),
        None => fallback,
    }
}

/// A stored recording.
#[derive(Debug, Clone, PartialEq, Eq)]
pub struct Recording {
    pub id: String,
    pub title: String,
    pub status: RecordingStatus,
    pub recording_directory: String,
    pub media_path: Option<String>,
    pub thumbnail_path: Option<String>,
    pub duration_ms: Option<i64>,
    pub captured_at: Option<String>,
    pub created_at: String,
    pub updated_at: String,
    pub completed_at: Option<String>,
    pub failure_message: Option<String>,
}

/// A request to create a recording.
#[derive(Debug, Clone, PartialEq, Eq)]
pub struct CreateRecordingInput {
    pub title: Option<String>,
    pub captured_at: Option<String>,
    pub media_path: Option<String>,
}

/// A request to change a recording; absent fields keep their stored values.
#[derive(Debug, Clone, PartialEq, Eq)]
pub struct UpdateRecordingInput {
    pub id: String,
    pub title: Option<String>,
    pub status: Option<RecordingStatus>,
    pub media_path: Option<String>,
    pub thumbnail_path: Option<String>,
    pub duration_ms: Option<i64>,
    pub captured_at: Option<String>,
    pub completed_at: Option<String>,
    pub failure_message: Option<String>,
}

/// The recording directory of a new recording, relative to the data root.
pub open spec fn spec_recording_directory(id: Seq<char>) -> Seq<char> {
    "recordings/"@ + id
}

/// The row that creating a recording with `id` at `now` stores.
pub fn new_recording(id: String, input: CreateRecordingInput, now: String) -> (r: Recording)
    ensures
        r.id == id,
        r.title@ == spec_normalize_title(opt_view(input.title)),
        r.status == RecordingStatus::Pending,
        r.recording_directory@ == spec_recording_directory(id@),
        r.media_path == input.media_path,
        r.thumbnail_path is None,
        r.duration_ms is None,
        r.captured_at == input.captured_at,
        r.created_at == now,
        r.updated_at == now,
        r.completed_at is None,
        r.failure_message is None,
{
    let title = normalize_title(input.title);
    let recording_directory = String::from_str("recordings/").concat(id.as_str());
    Recording {
        id,
        title,
        status: RecordingStatus::Pending,
        recording_directory,
        media_path: input.media_path,
        thumbnail_path: None,
        duration_ms: None,
        captured_at: input.captured_at,
        created_at: now.clone(),
        updated_at: now,
        completed_at: None,
        failure_message: None,
    }
}

/// The row that updating `existing` with `input` at `now` stores.
pub fn apply_recording_update(existing: Recording, input: UpdateRecordingInput, now: String) -> (r:
    Recording)
    ensures
        r.id == existing.id,
        r.title == (match input.title {
            Some(t) => t,
            None => existing.title,
        }),
        r.status == (match input.status {
            Some(s) => s,
            None => existing.status,
        }),
        r.recording_directory == existing.recording_directory,
        r.media_path == first_present(input.media_path, existing.media_path),
        r.thumbnail_path == first_present(input.thumbnail_path, existing.thumbnail_path),
        r.duration_ms == first_present(input.duration_ms, existing.duration_ms),
        r.captured_at == first_present(input.captured_at, existing.captured_at),
        r.created_at == existing.created_at,
        r.updated_at == now,
        r.completed_at == first_present(input.completed_at, existing.completed_at),
        r.failure_message == first_present(input.failure_message, existing.failure_message),
{
    Recording {
        id: existing.id,
        title: match input.title {
            Some(t) => t,
            None => existing.title,
        },
        status: match input.status {
            Some(s) => s,
            None => existing.status,
        },
        recording_directory: existing.recording_directory,
        media_path: or_string(input.media_path, existing.media_path),
        thumbnail_path: or_string(input.thumbnail_path, existing.thumbnail_path),
        duration_ms: or_i64(input.duration_ms, existing.duration_ms),
        captured_at: or_string(input.captured_at, existing.captured_at),
        created_at: existing.created_at,
        updated_at: now,
        completed_at: or_string(input.completed_at, existing.completed_at),
        failure_message: or_string(input.failure_message, existing.failure_message),
    }
}

/// The row after a recording is queued for encoding: processing, with its outputs cleared.
pub fn recording_marked_processing(existing: Recording, now: String) -> (r: Recording)
    ensures
        r == (Recording {
            status: RecordingStatus::Processing,
            media_path: None,
            thumbnail_path: None,
            updated_at: now,
            completed_at: None,
            failure_message: None,
            ..existing
        }),
{
    Recording {
        status: RecordingStatus::Processing,
        media_path: None,
        thumbnail_path: None,
        updated_at: now,
        completed_at: None,
        failure_message: None,
        ..existing
    }
}

/// The row after an encode completes.
pub fn recording_encode_completed(
    existing: Recording,
    media_path: String,
    thumbnail_path: Option<String>,
    duration_ms: Option<i64>,
    completed_at: String,
    now: String,
) -> (r: Recording)
    ensures
        r == (Recording {
            status: RecordingStatus::Completed,
            media_path: Some(media_path),
            thumbnail_path: thumbnail_path,
            duration_ms: duration_ms,
            updated_at: now,
            completed_at: Some(completed_at),
            failure_message: None,
            ..existing
        }),
{
    Recording {
        status: RecordingStatus::Completed,
        media_path: Some(media_path),
        thumbnail_path,
        duration_ms,
        updated_at: now,
        completed_at: Some(completed_at),
        failure_message: None,
        ..existing
    }
}

/// The row after an encode fails.
pub fn recording_encode_failed(existing: Recording, failure_message: String, now: String) -> (r:
    Recording)
    ensures
        r == (Recording {
            status: RecordingStatus::Failed,
            media_path: None,
            thumbnail_path: None,
            updated_at: now,
            completed_at: None,
            failure_message: Some(failure_message),
            ..existing
        }),
{
    Recording {
        status: RecordingStatus::Failed,
        media_path: None,
        thumbnail_path: None,
        updated_at: now,
        completed_at: None,
        failure_message: Some(failure_message),
        ..existing
    }
}

/// A stored processing job.
#[derive(Debug, Clone, PartialEq, Eq)]
pub struct ProcessingJob {
    pub id: String,
    pub recording_id: Option<String>,
    pub kind: String,
    pub state: JobState,
    pub priority: i64,
    pub attempts: i64,
    pub max_attempts: i64,
    pub input_json: Option<String>,
    pub output_json: Option<String>,
    pub error_message: Option<String>,
    pub interrupted: bool,
    pub last_error_at: Option<String>,
    pub created_at: String,
    pub updated_at: String,
    pub started_at: Option<String>,
    pub completed_at: Option<String>,
}

/// A request to create a processing job.
#[derive(Debug, Clone, PartialEq, Eq)]
pub struct CreateProcessingJobInput {
    pub recording_id: Option<String>,
    pub kind: String,
    pub priority: Option<i64>,
    pub input_json: Option<String>,
    pub max_attempts: Option<i64>,
}

/// A request to change a processing job.
#[derive(Debug, Clone, PartialEq, Eq)]
pub struct UpdateProcessingJobInput {
    pub id: String,
    pub state: Option<JobState>,
    pub attempts: Option<i64>,
    pub output_json: Option<String>,
    pub error_message: Option<String>,
    pub interrupted: Option<bool>,
    pub started_at: Option<String>,
    pub completed_at: Option<String>,
}

/// The attempt limit a new job gets: the requested positive limit, else three.
pub open spec fn spec_max_attempts(requested: Option<i64>) -> i64 {
    match requested {
        Some(n) => if n > 0 {
            n
        } else {
            3
        },
        None => 3,
    }
}

/// The row that creating a job with `id` at `now` stores: queued, never attempted.
pub fn new_processing_job(id: String, input: CreateProcessingJobInput, now: String) -> (r:
    ProcessingJob)
    ensures
        r == (ProcessingJob {
            id: id,
            recording_id: input.recording_id,
            kind: input.kind,
            state: JobState::Queued,
            priority: match input.priority {
                Some(p) => p,
                None => 0,
            },
            attempts: 0,
            max_attempts: spec_max_attempts(input.max_attempts),
            input_json: input.input_json,
            output_json: None,
            error_message: None,
            interrupted: false,
            last_error_at: None,
            created_at: now,
            updated_at: now,
            started_at: None,
            completed_at: None,
        }),
{
    let max_attempts = match input.max_attempts {
        Some(n) => if n > 0 {
            n
        } else {
            3
        },
        None => 3,
    };
    ProcessingJob {
        id,
        recording_id: input.recording_id,
        kind: input.kind,
        state: JobState::Queued,
        priority: match input.priority {
            Some(p) => p,
            None => 0,
        },
        attempts: 0,
        max_attempts,
        input_json: input.input_json,
        output_json: None,
        error_message: None,
        interrupted: false,
        last_error_at: None,
        created_at: now.clone(),
        updated_at: now,
        started_at: None,
        completed_at: None,
    }
}

/// The state a job update leaves: the requested one, else the stored one.
pub open spec fn spec_updated_state(existing: ProcessingJob, input: UpdateProcessingJobInput) -> JobState {
    match input.state {
        Some(s) => s,
        None => existing.state,
    }
}

/// The row that applying `input` to `existing` at `now` stores. Output is kept only for a
/// succeeded job, an error message only for a failed or cancelled one; a running job has a start
/// time; a queued or running job has no completion time and a finished one always has one.
pub fn apply_job_update(existing: ProcessingJob, input: UpdateProcessingJobInput, now: String) -> (r:
    ProcessingJob)
    ensures
        ({
            let state = spec_updated_state(existing, input);
            let interrupted = match input.interrupted {
                Some(b) => b,
                None => existing.interrupted,
            };
            let error_message = if state == JobState::Failed || state == JobState::Cancelled {
                first_present(input.error_message, existing.error_message)
            } else {
                None
            };
            let started = first_present(input.started_at, existing.started_at);
            let completed = first_present(input.completed_at, existing.completed_at);
            &&& r.id == existing.id
            &&& r.recording_id == existing.recording_id
            &&& r.kind == existing.kind
            &&& r.state == state
            &&& r.priority == existing.priority
            &&& r.attempts == (match input.attempts {
                Some(a) => a,
                None => existing.attempts,
            })
            &&& r.max_attempts == existing.max_attempts
            &&& r.input_json == existing.input_json
            &&& r.output_json == (if state == JobState::Succeeded {
                first_present(input.output_json, existing.output_json)
            } else {
                input.output_json
            })
            &&& r.error_message == error_message
            &&& r.interrupted == interrupted
            &&& r.last_error_at == (if error_message is Some || interrupted {
                Some(now)
            } else if state == JobState::Failed || state == JobState::Cancelled {
                existing.last_error_at
            } else {
                None
            })
            &&& r.created_at == existing.created_at
            &&& r.updated_at == now
            &&& r.started_at == (if state == JobState::Running && started is None {
                Some(now)
            } else {
                started
            })
            &&& r.completed_at == (if state == JobState::Queued || state == JobState::Running {
                None
            } else if completed is None {
                Some(now)
            } else {
                completed
            })
        }),
{
    let state = match input.state {
        Some(s) => s,
        None => existing.state,
    };
    let interrupted = match input.interrupted {
        Some(b) => b,
        None => existing.interrupted,
    };
    let output_json = match state {
        JobState::Succeeded => or_string(input.output_json, existing.output_json),
        _ => input.output_json,
    };
    let error_message = match state {
        JobState::Failed | JobState::Cancelled => or_string(
            input.error_message,
            existing.error_message,
        ),
        _ => None,
    };
    let last_error_at = if error_message.is_some() || interrupted {
        Some(now.clone())
    } else {
        match state {
            JobState::Failed | JobState::Cancelled => existing.last_error_at,
            _ => None,
        }
    };
    let mut started_at = or_string(input.started_at, existing.started_at);
    let mut completed_at = or_string(input.completed_at, existing.completed_at);
    if state == JobState::Running && started_at.is_none() {
        started_at = Some(now.clone());
    }
    if state == JobState::Queued || state == JobState::Running {
        completed_at = None;
    } else if completed_at.is_none() {
        completed_at = Some(now.clone());
    }
    ProcessingJob {
        id: existing.id,
        recording_id: existing.recording_id,
        kind: existing.kind,
        state,
        priority: existing.priority,
        attempts: match input.attempts {
            Some(a) => a,
            None => existing.attempts,
        },
        max_attempts: existing.max_attempts,
        input_json: existing.input_json,
        output_json,
        error_message,
        interrupted,
        last_error_at,
        created_at: existing.created_at,
        updated_at: now,
        started_at,
        completed_at,
    }
}

/// After any update, a running job has a start time and no completion time, a queued job has
/// no completion time, and a finished job has a completion time.
pub proof fn lemma_job_update_timestamps(
    existing: ProcessingJob,
    input: UpdateProcessingJobInput,
    now: String,
    r: ProcessingJob,
)
    requires
        ({
            let state = spec_updated_state(existing, input);
            let started = first_present(input.started_at, existing.started_at);
            let completed = first_present(input.completed_at, existing.completed_at);
            &&& r.state == state
            &&& r.started_at == (if state == JobState::Running && started is None {
                Some(now)
            } else {
                started
            })
            &&& r.completed_at == (if state == JobState::Queued || state == JobState::Running {
                None
            } else if completed is None {
                Some(now)
            } else {
                completed
            })
        }),
    ensures
        r.state == JobState::Running ==> r.started_at is Some,
        (r.state == JobState::Running || r.state == JobState::Queued) ==> r.completed_at is None,
        r.state.is_terminal() ==> r.completed_at is Some,
{
}

/// The row after a running job is found interrupted at startup.
pub fn job_interrupted(existing: ProcessingJob, message: String, now: String) -> (r: ProcessingJob)
    ensures
        r == (ProcessingJob {
            state: JobState::Failed,
            interrupted: true,
            error_message: Some(message),
            last_error_at: Some(now),
            updated_at: now,
            completed_at: Some(now),
            ..existing
        }),
{
    ProcessingJob {
        state: JobState::Failed,
        interrupted: true,
        error_message: Some(message),
        last_error_at: Some(now.clone()),
        updated_at: now.clone(),
        completed_at: Some(now),
        ..existing
    }
}

/// A job after start-up recovery: a running job is failed and interrupted with `message` at
/// `now`; any other job is unchanged.
pub open spec fn spec_recovered_job(job: ProcessingJob, message: String, now: String) -> ProcessingJob {
    if job.state == JobState::Running {
        ProcessingJob {
            state: JobState::Failed,
            interrupted: true,
            error_message: Some(message),
            last_error_at: Some(now),
            updated_at: now,
            completed_at: Some(now),
            ..job
        }
    } else {
        job
    }
}

/// The stored jobs after start-up recovery: every running job is marked failed and
/// interrupted, the others are left as they are, so no job is left running.
pub fn interrupt_running_jobs(jobs: Vec<ProcessingJob>, message: &String, now: &String) -> (r: Vec<
    ProcessingJob,
>)
    ensures
        r@.len() == jobs@.len(),
        forall|i: int| 0 <= i < r@.len() ==> #[trigger] r@[i] == spec_recovered_job(jobs@[i], *message, *now),
        forall|i: int| 0 <= i < r@.len() ==> #[trigger] r@[i].state != JobState::Running,
{
    let mut r: Vec<ProcessingJob> = Vec::new();
    let mut rest = jobs;
    let ghost given = rest@;
    let mut i: usize = 0;
    let n = rest.len();
    while i < n
        invariant
            n == given.len(),
            i <= n,
            rest@ == given.subrange(i as int, n as int),
            r@.len() == i,
            forall|k: int| 0 <= k < i ==> #[trigger] r@[k] == spec_recovered_job(given[k], *message, *now),
        decreases n - i,
    {
        let job = rest.remove(0);
        if job.state == JobState::Running {
            r.push(job_interrupted(job, message.clone(), now.clone()));
        } else {
            r.push(job);
        }
        i = i + 1;
    }
    r
}

/// The row after a job is reset for another attempt: queued again with every outcome cleared;
/// the attempt count is kept.
pub fn job_reset_for_retry(existing: ProcessingJob, now: String) -> (r: ProcessingJob)
    ensures
        r == (ProcessingJob {
            state: JobState::Queued,
            output_json: None,
            error_message: None,
            interrupted: false,
            last_error_at: None,
            updated_at: now,
            started_at: None,
            completed_at: None,
            ..existing
        }),
{
    ProcessingJob {
        state: JobState::Queued,
        output_json: None,
        error_message: None,
        interrupted: false,
        last_error_at: None,
        updated_at: now,
        started_at: None,
        completed_at: None,
        ..existing
    }
}

/// The row after the worker claims a queued job: running, one more attempt, started now.
pub fn job_claimed(existing: ProcessingJob, now: String) -> (r: ProcessingJob)
    requires
        existing.attempts < i64::MAX,
    ensures
        r == (ProcessingJob {
            state: JobState::Running,
            attempts: (existing.attempts + 1) as i64,
            output_json: None,
            error_message: None,
            interrupted: false,
            last_error_at: None,
            updated_at: now,
            started_at: Some(now),
            completed_at: None,
            ..existing
        }),
{
    let attempts = existing.attempts + 1;
    ProcessingJob {
        state: JobState::Running,
        attempts,
        output_json: None,
        error_message: None,
        interrupted: false,
        last_error_at: None,
        updated_at: now.clone(),
        started_at: Some(now),
        completed_at: None,
        ..existing
    }
}

/// Text order of stored timestamps (code point by code point, a prefix first).
pub open spec fn seq_lex_le(a: Seq<char>, b: Seq<char>) -> bool
    decreases a.len(),
{
    if a.len() == 0 {
        true
    } else if b.len() == 0 {
        false
    } else if (a[0] as int) < (b[0] as int) {
        true
    } else if (a[0] as int) > (b[0] as int) {
        false
    } else {
        seq_lex_le(a.drop_first(), b.drop_first())
    }
}

/// Any two texts are ordered one way or the other.
pub proof fn lemma_lex_total(a: Seq<char>, b: Seq<char>)
    ensures
        seq_lex_le(a, b) || seq_lex_le(b, a),
    decreases a.len(),
{
    if a.len() > 0 && b.len() > 0 && a[0] == b[0] {
        lemma_lex_total(a.drop_first(), b.drop_first());
    } else if a.len() > 0 && b.len() > 0 {
        assert((a[0] as int) != (b[0] as int));
    }
}

/// The text order is transitive.
pub proof fn lemma_lex_transitive(a: Seq<char>, b: Seq<char>, c: Seq<char>)
    requires
        seq_lex_le(a, b),
        seq_lex_le(b, c),
    ensures
        seq_lex_le(a, c),
    decreases a.len(),
{
    if a.len() > 0 && b.len() > 0 && c.len() > 0 && a[0] == b[0] && b[0] == c[0] {
        lemma_lex_transitive(a.drop_first(), b.drop_first(), c.drop_first());
    } else if a.len() > 0 && b.len() > 0 && c.len() > 0 {
        assert((a[0] as int) <= (b[0] as int));
        assert((b[0] as int) <= (c[0] as int));
    }
}

pub fn str_lex_le(a: &str, b: &str) -> (r: bool)
    ensures
        r == seq_lex_le(a@, b@),
{
    let n = a.unicode_len();
    let m = b.unicode_len();
    let mut i: usize = 0;
    assert(a@.subrange(0, n as int) =~= a@);
    assert(b@.subrange(0, m as int) =~= b@);
    while i < n && i < m
        invariant
            n == a@.len(),
            m == b@.len(),
            i <= n,
            i <= m,
            seq_lex_le(a@, b@) == seq_lex_le(a@.subrange(i as int, n as int), b@.subrange(
                i as int,
                m as int,
            )),
        decreases n - i,
    {
        let x = a.get_char(i);
        let y = b.get_char(i);
        let ghost sa = a@.subrange(i as int, n as int);
        let ghost sb = b@.subrange(i as int, m as int);
        assert(sa[0] == x && sb[0] == y);
        if (x as u32) < (y as u32) {
            return true;
        }
        if (x as u32) > (y as u32) {
            return false;
        }
        assert(sa.drop_first() =~= a@.subrange(i + 1, n as int));
        assert(sb.drop_first() =~= b@.subrange(i + 1, m as int));
        i = i + 1;
    }
    i == n
}

/// Job `a` is due strictly before job `b`: a higher priority, or the same priority and an
/// earlier creation time.
pub open spec fn due_before(a: ProcessingJob, b: ProcessingJob) -> bool {
    a.priority > b.priority || (a.priority == b.priority && !seq_lex_le(
        b.created_at@,
        a.created_at@,
    ))
}

/// Being due before is transitive.
pub proof fn lemma_due_before_transitive(a: ProcessingJob, b: ProcessingJob, c: ProcessingJob)
    requires
        due_before(a, b),
        due_before(b, c),
    ensures
        due_before(a, c),
{
    if a.priority == b.priority && b.priority == c.priority {
        lemma_lex_total(a.created_at@, b.created_at@);
        if seq_lex_le(c.created_at@, a.created_at@) {
            lemma_lex_transitive(c.created_at@, a.created_at@, b.created_at@);
        }
    }
}

/// The job the worker claims has the highest priority of all queued jobs, and among queued
/// jobs of that priority it was created first (no other was created strictly earlier).
pub proof fn lemma_claimed_job_is_highest_priority_oldest(jobs: Seq<ProcessingJob>, i: int)
    requires
        0 <= i < jobs.len(),
        jobs[i].state == JobState::Queued,
        forall|j: int|
            0 <= j < jobs.len() && #[trigger] jobs[j].state == JobState::Queued ==> !due_before(
                jobs[j],
                jobs[i],
            ),
    ensures
        forall|j: int|
            0 <= j < jobs.len() && #[trigger] jobs[j].state == JobState::Queued ==> jobs[j].priority
                <= jobs[i].priority && (jobs[j].priority == jobs[i].priority ==> seq_lex_le(
                jobs[i].created_at@,
                jobs[j].created_at@,
            )),
{
}

/// The position of the queued job that the worker claims next: a queued job that no queued job
/// is due before, the first such in `jobs`; none when nothing is queued.
pub fn next_queued_job_index(jobs: &Vec<ProcessingJob>) -> (r: Option<usize>)
    ensures
        match r {
            Some(i) => {
                &&& i < jobs@.len()
                &&& jobs@[i as int].state == JobState::Queued
                &&& forall|j: int|
                    0 <= j < jobs@.len() && #[trigger] jobs@[j].state == JobState::Queued
                        ==> !due_before(jobs@[j], jobs@[i as int])
                &&& forall|j: int|
                    0 <= j < jobs@.len() && #[trigger] jobs@[j].state == JobState::Queued
                        ==> jobs@[j].priority <= jobs@[i as int].priority
            },
            None => forall|j: int| 0 <= j < jobs@.len() ==> #[trigger] jobs@[j].state
                != JobState::Queued,
        },
{
    let mut best: Option<usize> = None;
    let mut i: usize = 0;
    while i < jobs.len()
        invariant
            i <= jobs@.len(),
            match best {
                Some(b) => {
                    &&& b < i
                    &&& jobs@[b as int].state == JobState::Queued
                    &&& forall|j: int|
                        0 <= j < i && #[trigger] jobs@[j].state == JobState::Queued
                            ==> !due_before(jobs@[j], jobs@[b as int])
                },
                None => forall|j: int| 0 <= j < i ==> #[trigger] jobs@[j].state
                    != JobState::Queued,
            },
        decreases jobs.len() - i,
    {
        if jobs[i].state == JobState::Queued {
            match best {
                None => {
                    proof {
                        lemma_lex_total(jobs@[i as int].created_at@, jobs@[i as int].created_at@);
                    }
                    best = Some(i);
                },
                Some(b) => {
                    let candidate = &jobs[i];
                    let current = &jobs[b];
                    if candidate.priority > current.priority || (candidate.priority
                        == current.priority && !str_lex_le(
                        current.created_at.as_str(),
                        candidate.created_at.as_str(),
                    )) {
                        proof {
                            assert forall|j: int|
                                0 <= j < i + 1 && #[trigger] jobs@[j].state == JobState::Queued
                                    implies !due_before(jobs@[j], jobs@[i as int]) by {
                                if j < i && due_before(jobs@[j], jobs@[i as int]) {
                                    lemma_due_before_transitive(
                                        jobs@[j],
                                        jobs@[i as int],
                                        jobs@[b as int],
                                    );
                                }
                                if j == i {
                                    lemma_lex_total(
                                        jobs@[j].created_at@,
                                        jobs@[j].created_at@,
                                    );
                                }
                            }
                        }
                        best = Some(i);
                    }
                },
            }
        }
        i = i + 1;
    }
    best
}

} // verus!

//! What the desktop shell asks of the application: the start-up description and the request
//! and response shapes of the recording session commands.
use vstd::prelude::*;
use vstd::string::*;

use crate::config::{local_only_defaults, LocalOnlyDefaults};
use crate::storage::sessions::{RecordingSession, StorageOverview};
use crate::storage::Recording;

verus! {

/// The technology each part of the application runs on.
#[derive(Debug, Clone, PartialEq, Eq)]
pub struct RuntimeInfo {
    pub shell: &'static str,
    pub native: &'static str,
    pub frontend: &'static str,
    pub package_manager: &'static str,
}

/// A domain of native work, who owns it and how far it is implemented.
#[derive(Debug, Clone, PartialEq, Eq)]
pub struct NativeBoundary {
    pub domain: &'static str,
    pub owner: &'static str,
    pub status: &'static str,
}

/// What the interface is told at start-up.
#[derive(Debug, Clone, PartialEq, Eq)]
pub struct AppBootstrap {
    pub app_name: &'static str,
    pub runtime: RuntimeInfo,
    pub local_only: LocalOnlyDefaults,
    pub storage: StorageOverview,
    pub native_boundaries: Vec<NativeBoundary>,
    pub available_commands: Vec<&'static str>,
}

/// A request to start recording.
#[derive(Debug, Clone, PartialEq, Eq)]
pub struct StartRecordingSessionInput {
    pub title: Option<String>,
}

/// A request to stop recording (the active session, or the one of this recording).
#[derive(Debug, Clone, PartialEq, Eq)]
pub struct StopRecordingSessionInput {
    pub recording_id: Option<String>,
}

/// A request for an AI summary of a recording.
#[derive(Debug, Clone, PartialEq, Eq)]
pub struct SummarizeRecordingInput {
    pub recording_id: String,
    pub user_notes: Option<String>,
}

/// A recording with its capture session.
#[derive(Debug, Clone, PartialEq, Eq)]
pub struct RecordingSessionEnvelope {
    pub recording: Recording,
    pub session: RecordingSession,
}

pub const APP_NAME: &'static str = "Metafy Desktop";

/// The native domains, their owner and status, in the order the interface lists them.
pub open spec fn spec_native_boundaries() -> Seq<(Seq<char>, Seq<char>, Seq<char>)> {
    seq![
        ("filesystem"@, "Rust"@, "implemented"@),
        ("capture"@, "Rust"@, "recording-session-implemented"@),
        ("encoding"@, "Rust"@, "implemented-system-ffmpeg"@),
        ("transcription"@, "Rust"@, "implemented-local-whisper"@),
        ("jobs"@, "Rust"@, "implemented"@),
        ("optional_ai"@, "Rust"@, "implemented-transcript-only"@),
    ]
}

pub open spec fn boundary_view(b: NativeBoundary) -> (Seq<char>, Seq<char>, Seq<char>) {
    (b.domain@, b.owner@, b.status@)
}

/// The commands the interface may call.
pub open spec fn spec_available_commands() -> Seq<Seq<char>> {
    seq![
        "app_bootstrap"@,
        "storage_overview"@,
        "create_recording"@,
        "list_recordings"@,
        "get_recording"@,
        "update_recording"@,
        "persist_transcript"@,
        "get_transcript_by_recording"@,
        "search_transcripts"@,
        "reindex_transcript_search"@,
        "whisper_model_status"@,
        "import_whisper_model"@,
        "transcribe_recording"@,
        "upsert_ai_summary"@,
        "get_ai_summary_by_recording"@,
        "get_ai_settings"@,
        "save_ai_settings"@,
        "summarize_recording"@,
        "create_processing_job"@,
        "list_processing_jobs"@,
        "update_processing_job"@,
        "recover_processing_jobs"@,
        "retry_processing_job"@,
        "cleanup_processing_files"@,
        "capture_status"@,
        "request_capture_permissions"@,
        "get_capture_selection"@,
        "save_capture_selection"@,
        "validate_capture_config"@,
        "start_recording_session"@,
        "stop_recording_session"@,
        "active_recording_session"@,
        "get_recording_session_by_recording"@,
        "encode_recording"@,
        "recording_asset_paths"@,
    ]
}

fn boundary(domain: &'static str, status: &'static str) -> (r: NativeBoundary)
    ensures
        r.domain == domain,
        r.owner@ == "Rust"@,
        r.status == status,
{
    NativeBoundary { domain, owner: "Rust", status }
}

fn native_boundaries() -> (r: Vec<NativeBoundary>)
    ensures
        r@.len() == spec_native_boundaries().len(),
        forall|k: int|
            0 <= k < r@.len() ==> #[trigger] boundary_view(r@[k]) == spec_native_boundaries()[k],
{
    let mut r: Vec<NativeBoundary> = Vec::new();
    r.push(boundary("filesystem", "implemented"));
    r.push(boundary("capture", "recording-session-implemented"));
    r.push(boundary("encoding", "implemented-system-ffmpeg"));
    r.push(boundary("transcription", "implemented-local-whisper"));
    r.push(boundary("jobs", "implemented"));
    r.push(boundary("optional_ai", "implemented-transcript-only"));
    r
}

fn available_commands() -> (r: Vec<&'static str>)
    ensures
        r@.len() == spec_available_commands().len(),
        forall|k: int| 0 <= k < r@.len() ==> #[trigger] r@[k]@ == spec_available_commands()[k],
{
    let names: [&'static str; 35] = [
        "app_bootstrap",
        "storage_overview",
        "create_recording",
        "list_recordings",
        "get_recording",
        "update_recording",
        "persist_transcript",
        "get_transcript_by_recording",
        "search_transcripts",
        "reindex_transcript_search",
        "whisper_model_status",
        "import_whisper_model",
        "transcribe_recording",
        "upsert_ai_summary",
        "get_ai_summary_by_recording",
        "get_ai_settings",
        "save_ai_settings",
        "summarize_recording",
        "create_processing_job",
        "list_processing_jobs",
        "update_processing_job",
        "recover_processing_jobs",
        "retry_processing_job",
        "cleanup_processing_files",
        "capture_status",
        "request_capture_permissions",
        "get_capture_selection",
        "save_capture_selection",
        "validate_capture_config",
        "start_recording_session",
        "stop_recording_session",
        "active_recording_session",
        "get_recording_session_by_recording",
        "encode_recording",
        "recording_asset_paths",
    ];
    let mut r: Vec<&'static str> = Vec::new();
    let mut i: usize = 0;
    while i < 35
        invariant
            i <= 35,
            r@.len() == i,
            forall|k: int| 0 <= k < 35 ==> #[trigger] names@[k]@ == spec_available_commands()[k],
            forall|k: int| 0 <= k < i ==> #[trigger] r@[k]@ == spec_available_commands()[k],
        decreases 35 - i,
    {
        r.push(names[i]);
        i = i + 1;
    }
    r
}

/// The start-up description: the application's name and runtime, its local-only defaults,
/// the store's overview, the native domains and the commands.
pub fn app_bootstrap(storage: StorageOverview) -> (r: AppBootstrap)
    ensures
        r.app_name@ == APP_NAME@,
        r.runtime.shell@ == "Tauri 2"@,
        r.runtime.native@ == "Rust"@,
        r.runtime.frontend@ == "SvelteKit"@,
        r.runtime.package_manager@ == "Deno"@,
        !r.local_only.core_network_required,
        !r.local_only.raw_media_leaves_device,
        r.storage == storage,
        r.native_boundaries@.len() == spec_native_boundaries().len(),
        forall|k: int|
            0 <= k < r.native_boundaries@.len() ==> #[trigger] boundary_view(
                r.native_boundaries@[k],
            ) == spec_native_boundaries()[k],
        r.available_commands@.len() == spec_available_commands().len(),
        forall|k: int|
            0 <= k < r.available_commands@.len() ==> #[trigger] r.available_commands@[k]@
                == spec_available_commands()[k],
{
    AppBootstrap {
        app_name: APP_NAME,
        runtime: RuntimeInfo {
            shell: "Tauri 2",
            native: "Rust",
            frontend: "SvelteKit",
            package_manager: "Deno",
        },
        local_only: local_only_defaults(),
        storage,
        native_boundaries: native_boundaries(),
        available_commands: available_commands(),
    }
}

} // verus!

//! The local-only defaults the application promises: nothing leaves the device unless the
//! optional AI is turned on, and then only transcript text and recording metadata.
use vstd::prelude::*;

verus! {

#[derive(Debug, Clone, PartialEq, Eq)]
pub struct LocalOnlyDefaults {
    pub core_network_required: bool,
    pub raw_media_leaves_device: bool,
    pub storage: StorageDefaults,
    pub optional_ai: OptionalAiDefaults,
}

#[derive(Debug, Clone, PartialEq, Eq)]
pub struct StorageDefaults {
    pub root: &'static str,
    pub database_file: &'static str,
    pub recordings_directory: &'static str,
    pub whisper_models_directory: &'static str,
    pub temp_directory: &'static str,
}

#[derive(Debug, Clone, PartialEq, Eq)]
pub struct OptionalAiDefaults {
    pub enabled: bool,
    pub payload_scope: &'static str,
}

pub fn local_only_defaults() -> (r: LocalOnlyDefaults)
    ensures
        !r.core_network_required,
        !r.raw_media_leaves_device,
        r.storage.root@ == "app_data_directory"@,
        r.storage.database_file@ == "app.sqlite"@,
        r.storage.recordings_directory@ == "recordings"@,
        r.storage.whisper_models_directory@ == "models/whisper"@,
        r.storage.temp_directory@ == "temp"@,
        !r.optional_ai.enabled,
        r.optional_ai.payload_scope@ == "transcript_text_and_recording_metadata_only"@,
{
    LocalOnlyDefaults {
        core_network_required: false,
        raw_media_leaves_device: false,
        storage: StorageDefaults {
            root: "app_data_directory",
            database_file: "app.sqlite",
            recordings_directory: "recordings",
            whisper_models_directory: "models/whisper",
            temp_directory: "temp",
        },
        optional_ai: OptionalAiDefaults {
            enabled: false,
            payload_scope: "transcript_text_and_recording_metadata_only",
        },
    }
}

} // verus!

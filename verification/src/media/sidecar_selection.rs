//! Which captured audio sidecars feed encoding or transcription, following the session's
//! audio mode and reading sessions from before split audio.
use vstd::prelude::*;
use vstd::string::*;

use crate::storage::sessions::{spec_resolve_path, RecordingSession, StorageState};
use crate::storage::{clone_opt_string, opt_view, CaptureAudioMode};
use crate::text::string_views;

verus! {

/// One captured audio stream to read.
#[derive(Debug, Clone, PartialEq, Eq)]
pub struct AudioSidecarInput {
    pub path: String,
    pub label: &'static str,
    pub sample_rate: Option<i64>,
    pub channels: Option<i64>,
    pub sample_format: Option<String>,
}

/// What the audio is selected for.
#[derive(Debug, Clone, Copy, PartialEq, Eq, Structural)]
pub enum AudioSidecarPurpose {
    Encoding,
    Transcription,
}

/// The model of an [`AudioSidecarInput`]: path, label, rate, channels and format.
pub open spec fn sidecar_view(input: AudioSidecarInput) -> (
    Seq<char>,
    Seq<char>,
    Option<i64>,
    Option<i64>,
    Option<Seq<char>>,
) {
    (input.path@, input.label@, input.sample_rate, input.channels, opt_view(input.sample_format))
}

pub open spec fn sidecar_views(inputs: Seq<AudioSidecarInput>) -> Seq<
    (Seq<char>, Seq<char>, Option<i64>, Option<i64>, Option<Seq<char>>),
> {
    inputs.map_values(|input: AudioSidecarInput| sidecar_view(input))
}

/// A session's single legacy audio file, unless it recorded source audio only.
pub open spec fn spec_legacy_microphone_audio_path(session: RecordingSession) -> Option<String> {
    if session.audio_mode != CaptureAudioMode::Source {
        session.audio_path
    } else {
        None
    }
}

pub fn legacy_microphone_audio_path(session: &RecordingSession) -> (r: Option<&str>)
    ensures
        match r {
            Some(p) => spec_legacy_microphone_audio_path(*session) matches Some(q) && q@ == p@,
            None => spec_legacy_microphone_audio_path(*session) is None,
        },
{
    if session.audio_mode != CaptureAudioMode::Source {
        match &session.audio_path {
            Some(p) => Some(p.as_str()),
            None => None,
        }
    } else {
        None
    }
}

/// The warning given when a requested stream has no file.
pub open spec fn spec_missing_audio_warning(label: Seq<char>, purpose: AudioSidecarPurpose) -> Seq<
    char,
> {
    match purpose {
        AudioSidecarPurpose::Encoding => label
            + " was requested but no capture file was recorded; encoded without "@ + label + "."@,
        AudioSidecarPurpose::Transcription => label
            + " was requested but no capture file was recorded; transcription audio prepared without "@
            + label + "."@,
    }
}

pub fn missing_requested_audio_warning(label: &str, purpose: AudioSidecarPurpose) -> (r: String)
    ensures
        r@ == spec_missing_audio_warning(label@, purpose),
{
    match purpose {
        AudioSidecarPurpose::Encoding => label.to_owned().concat(
            " was requested but no capture file was recorded; encoded without ",
        ).concat(label).concat("."),
        AudioSidecarPurpose::Transcription => label.to_owned().concat(
            " was requested but no capture file was recorded; transcription audio prepared without ",
        ).concat(label).concat("."),
    }
}

/// The microphone file of a session: its own, else the legacy one.
pub open spec fn spec_microphone_file(session: RecordingSession) -> Option<String> {
    match session.microphone_audio_path {
        Some(p) => Some(p),
        None => spec_legacy_microphone_audio_path(session),
    }
}

/// The streams selected for a session, and the warnings for requested streams without a file.
pub open spec fn spec_selected_sidecars(root: Seq<char>, session: RecordingSession, purpose: AudioSidecarPurpose) -> (
    Seq<(Seq<char>, Seq<char>, Option<i64>, Option<i64>, Option<Seq<char>>)>,
    Seq<Seq<char>>,
) {
    let microphone_label = "microphone audio"@;
    let source_label = "source audio"@;
    let (first, first_warnings) = if session.audio_mode.spec_includes_microphone() {
        match spec_microphone_file(session) {
            Some(p) => (
                seq![
                    (
                        spec_resolve_path(root, p@),
                        microphone_label,
                        session.microphone_audio_sample_rate,
                        session.microphone_audio_channels,
                        opt_view(session.microphone_audio_sample_format),
                    ),
                ],
                Seq::empty(),
            ),
            None => (Seq::empty(), seq![spec_missing_audio_warning(microphone_label, purpose)]),
        }
    } else if session.audio_mode == CaptureAudioMode::NoAudio {
        match spec_legacy_microphone_audio_path(session) {
            Some(p) => (
                seq![
                    (
                        spec_resolve_path(root, p@),
                        microphone_label,
                        session.audio_sample_rate,
                        session.audio_channels,
                        opt_view(session.audio_sample_format),
                    ),
                ],
                Seq::empty(),
            ),
            None => (Seq::empty(), Seq::empty()),
        }
    } else {
        (Seq::empty(), Seq::empty())
    };
    let (second, second_warnings) = if session.audio_mode.spec_includes_source_audio() {
        match session.source_audio_path {
            Some(p) => (
                seq![
                    (
                        spec_resolve_path(root, p@),
                        source_label,
                        session.source_audio_sample_rate,
                        session.source_audio_channels,
                        opt_view(session.source_audio_sample_format),
                    ),
                ],
                Seq::empty(),
            ),
            None => (Seq::empty(), seq![spec_missing_audio_warning(source_label, purpose)]),
        }
    } else {
        (Seq::empty(), Seq::empty())
    };
    (first + second, first_warnings + second_warnings)
}

/// The streams selected follow the session's audio mode. When the mode records source audio
/// (source only, or microphone and source) and the session has a source audio file, that file
/// is the last stream, labelled source audio with its own format; when it has none, the last
/// warning says so. When the mode records the microphone and the session has a microphone
/// file, that file is the first stream, labelled microphone audio with its own format; with
/// both recorded there are exactly these two streams. A mode without source audio selects
/// only microphone audio, and a source-only mode only source audio. A session without audio
/// mode from before split audio reads its single legacy file as microphone audio.
pub proof fn lemma_selection_follows_audio_mode(
    root: Seq<char>,
    session: RecordingSession,
    purpose: AudioSidecarPurpose,
)
    ensures
        ({
            let (inputs, warnings) = spec_selected_sidecars(root, session, purpose);
            let mode = session.audio_mode;
            let records_source = mode == CaptureAudioMode::Source || mode
                == CaptureAudioMode::MicrophoneAndSource;
            let records_microphone = mode == CaptureAudioMode::Microphone || mode
                == CaptureAudioMode::MicrophoneAndSource;
            &&& (records_source && session.source_audio_path is Some) ==> {
                &&& inputs.len() >= 1
                &&& inputs.last() == (
                    spec_resolve_path(root, session.source_audio_path->0@),
                    "source audio"@,
                    session.source_audio_sample_rate,
                    session.source_audio_channels,
                    opt_view(session.source_audio_sample_format),
                )
            }
            &&& (records_source && session.source_audio_path is None) ==> {
                &&& warnings.len() >= 1
                &&& warnings.last() == spec_missing_audio_warning("source audio"@, purpose)
            }
            &&& (records_microphone && session.microphone_audio_path is Some) ==> {
                &&& inputs.len() >= 1
                &&& inputs[0] == (
                    spec_resolve_path(root, session.microphone_audio_path->0@),
                    "microphone audio"@,
                    session.microphone_audio_sample_rate,
                    session.microphone_audio_channels,
                    opt_view(session.microphone_audio_sample_format),
                )
            }
            &&& (mode == CaptureAudioMode::MicrophoneAndSource && session.microphone_audio_path is Some
                && session.source_audio_path is Some) ==> inputs.len() == 2
            &&& !records_source ==> inputs.len() <= 1 && forall|i: int|
                0 <= i < inputs.len() ==> #[trigger] inputs[i].1 == "microphone audio"@
            &&& (mode == CaptureAudioMode::NoAudio && session.audio_path is Some) ==> inputs
                == seq![
                (
                    spec_resolve_path(root, session.audio_path->0@),
                    "microphone audio"@,
                    session.audio_sample_rate,
                    session.audio_channels,
                    opt_view(session.audio_sample_format),
                ),
            ]
            &&& mode == CaptureAudioMode::Source ==> inputs.len() <= 1 && forall|i: int|
                0 <= i < inputs.len() ==> #[trigger] inputs[i].1 == "source audio"@
        }),
{
}

fn push_warning(warnings: &mut Vec<String>, warning: String)
    ensures
        string_views(final(warnings)@) == string_views(old(warnings)@).push(warning@),
{
    warnings.push(warning);
    assert(string_views(warnings@) =~= string_views(old(warnings)@).push(warning@));
}

fn push_input(inputs: &mut Vec<AudioSidecarInput>, input: AudioSidecarInput)
    ensures
        sidecar_views(final(inputs)@) == sidecar_views(old(inputs)@).push(sidecar_view(input)),
{
    inputs.push(input);
    assert(sidecar_views(inputs@) =~= sidecar_views(old(inputs)@).push(sidecar_view(input)));
}

/// The captured audio streams of a session to read, in order: the microphone stream (or, for a
/// session without audio mode from before split audio, its single legacy file), then the
/// source audio stream. A requested stream without a file adds a warning instead.
pub fn select_requested_audio_sidecars(
    storage: &StorageState,
    session: &RecordingSession,
    purpose: AudioSidecarPurpose,
    warnings: &mut Vec<String>,
) -> (r: Vec<AudioSidecarInput>)
    ensures
        sidecar_views(r@) == spec_selected_sidecars(storage.paths.root@, *session, purpose).0,
        string_views(final(warnings)@) == string_views(old(warnings)@) + spec_selected_sidecars(
            storage.paths.root@,
            *session,
            purpose,
        ).1,
{
    let ghost start = string_views(warnings@);
    let mut inputs: Vec<AudioSidecarInput> = Vec::new();
    let microphone_path: Option<&str> = match &session.microphone_audio_path {
        Some(p) => Some(p.as_str()),
        None => legacy_microphone_audio_path(session),
    };
    if session.audio_mode.includes_microphone() {
        match microphone_path {
            Some(path) => {
                push_input(
                    &mut inputs,
                    AudioSidecarInput {
                        path: storage.resolve_path(path),
                        label: "microphone audio",
                        sample_rate: session.microphone_audio_sample_rate,
                        channels: session.microphone_audio_channels,
                        sample_format: clone_opt_string(&session.microphone_audio_sample_format),
                    },
                );
            },
            None => {
                push_warning(warnings, missing_requested_audio_warning("microphone audio", purpose));
            },
        }
    } else if session.audio_mode == CaptureAudioMode::NoAudio {
        match legacy_microphone_audio_path(session) {
            Some(path) => {
                push_input(
                    &mut inputs,
                    AudioSidecarInput {
                        path: storage.resolve_path(path),
                        label: "microphone audio",
                        sample_rate: session.audio_sample_rate,
                        channels: session.audio_channels,
                        sample_format: clone_opt_string(&session.audio_sample_format),
                    },
                );
            },
            None => {},
        }
    }
    let ghost after_first_inputs = sidecar_views(inputs@);
    let ghost after_first_warnings = string_views(warnings@);
    if session.audio_mode.includes_source_audio() {
        match &session.source_audio_path {
            Some(path) => {
                push_input(
                    &mut inputs,
                    AudioSidecarInput {
                        path: storage.resolve_path(path.as_str()),
                        label: "source audio",
                        sample_rate: session.source_audio_sample_rate,
                        channels: session.source_audio_channels,
                        sample_format: clone_opt_string(&session.source_audio_sample_format),
                    },
                );
            },
            None => {
                push_warning(warnings, missing_requested_audio_warning("source audio", purpose));
            },
        }
    }
    proof {
        let expected = spec_selected_sidecars(storage.paths.root@, *session, purpose);
        assert(sidecar_views(inputs@) =~= expected.0);
        assert(string_views(warnings@) =~= start + expected.1);
    }
    inputs
}

} // verus!

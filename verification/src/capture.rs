//! What can be captured (screens, windows, microphones, source audio), whether the operating
//! system allows it, and whether a stored selection describes a capture that can start.
use vstd::prelude::*;
use vstd::string::*;

use crate::platform::PlatformBackend;
use crate::source_audio::{
    config_result_view, error_or, error_or_else, source_audio_capability, source_audio_config,
    spec_source_audio_capability, spec_source_audio_config,
};
use crate::storage::{clone_opt_string, opt_view, CaptureAudioMode, CaptureSelection};
use crate::text::{
    char_index_from, decimal, find_char, join, seq_contains, seq_join, str_equals, string_views,
    trim, trimmed, contains_str, u64_to_decimal,
};

verus! {

/// What the operating system says about access to a capture device.
#[derive(Debug, Clone, Copy, PartialEq, Eq, Structural)]
pub enum CapturePermissionState {
    Granted,
    PromptRequired,
    Denied,
    Unavailable,
    Unknown,
}

/// Whether one kind of capture can run here, with the reason when it cannot.
#[derive(Debug, Clone, PartialEq, Eq)]
pub struct CaptureCapability {
    pub supported: bool,
    pub permission_state: CapturePermissionState,
    pub error: Option<String>,
}

/// The model of a [`CaptureCapability`]: its message as characters.
pub struct CapabilityView {
    pub supported: bool,
    pub permission_state: CapturePermissionState,
    pub error: Option<Seq<char>>,
}

impl View for CaptureCapability {
    type V = CapabilityView;

    open spec fn view(&self) -> CapabilityView {
        CapabilityView {
            supported: self.supported,
            permission_state: self.permission_state,
            error: opt_view(self.error),
        }
    }
}

pub open spec fn capability_of(
    supported: bool,
    permission_state: CapturePermissionState,
    error: Option<Seq<char>>,
) -> CapabilityView {
    CapabilityView { supported, permission_state, error }
}

impl CaptureCapability {
    pub fn copy(&self) -> (r: CaptureCapability)
        ensures
            r == *self,
    {
        CaptureCapability {
            supported: self.supported,
            permission_state: self.permission_state,
            error: clone_opt_string(&self.error),
        }
    }
}

/// The kind of thing a video source captures.
#[derive(Debug, Clone, Copy, PartialEq, Eq, Structural)]
pub enum CaptureVideoSourceKind {
    Display,
    Application,
    Window,
}

impl CaptureVideoSourceKind {
    /// The word used for the kind in source ids and messages.
    pub open spec fn spec_label(self) -> Seq<char> {
        match self {
            CaptureVideoSourceKind::Display => "display"@,
            CaptureVideoSourceKind::Application => "application"@,
            CaptureVideoSourceKind::Window => "window"@,
        }
    }

    pub fn label(&self) -> (r: &'static str)
        ensures
            r@ == self.spec_label(),
    {
        match self {
            CaptureVideoSourceKind::Display => "display",
            CaptureVideoSourceKind::Application => "application",
            CaptureVideoSourceKind::Window => "window",
        }
    }
}

pub const SOURCE_ID_PREFIX_MISSING: &'static str = "Source id must include a kind prefix.";

pub const SOURCE_ID_NATIVE_ID_MISSING: &'static str = "Source id must include a native id.";

pub const SOURCE_ID_PREFIX_UNKNOWN: &'static str =
    "Source id must use display:, application:, or window: prefix.";

/// A video source id split into its kind and the id the capture backend knows it by.
#[derive(Debug, Clone, PartialEq, Eq)]
pub struct ParsedCaptureSourceId {
    pub kind: CaptureVideoSourceKind,
    pub native_id: String,
}

/// A source id is `kind:native`: the kind is what precedes the first colon, the native id is
/// the rest without surrounding white space. Errors are checked in this order: no colon, an
/// empty native id, an unknown kind.
pub open spec fn spec_parse_source_id(s: Seq<char>) -> Result<
    (CaptureVideoSourceKind, Seq<char>),
    Seq<char>,
> {
    match char_index_from(s, ':', 0) {
        None => Err(SOURCE_ID_PREFIX_MISSING@),
        Some(i) => {
            let prefix = s.subrange(0, i);
            let native = trimmed(s.subrange(i + 1, s.len() as int));
            if native.len() == 0 {
                Err(SOURCE_ID_NATIVE_ID_MISSING@)
            } else if prefix == "display"@ {
                Ok((CaptureVideoSourceKind::Display, native))
            } else if prefix == "application"@ {
                Ok((CaptureVideoSourceKind::Application, native))
            } else if prefix == "window"@ {
                Ok((CaptureVideoSourceKind::Window, native))
            } else {
                Err(SOURCE_ID_PREFIX_UNKNOWN@)
            }
        },
    }
}

/// The parsed form of a parse result, as characters.
pub open spec fn parsed_view(r: Result<ParsedCaptureSourceId, String>) -> Result<
    (CaptureVideoSourceKind, Seq<char>),
    Seq<char>,
> {
    match r {
        Ok(p) => Ok((p.kind, p.native_id@)),
        Err(e) => Err(e@),
    }
}

pub fn parse_capture_video_source_id(source_id: &str) -> (r: Result<ParsedCaptureSourceId, String>)
    ensures
        parsed_view(r) == spec_parse_source_id(source_id@),
{
    let n = source_id.unicode_len();
    let colon = match find_char(source_id, ':') {
        Some(i) => i,
        None => {
            return Err(String::from_str(SOURCE_ID_PREFIX_MISSING));
        },
    };
    let prefix = source_id.substring_char(0, colon);
    let native = trim(source_id.substring_char(colon + 1, n));
    if native.unicode_len() == 0 {
        return Err(String::from_str(SOURCE_ID_NATIVE_ID_MISSING));
    }
    let kind = if str_equals(prefix, "display") {
        CaptureVideoSourceKind::Display
    } else if str_equals(prefix, "application") {
        CaptureVideoSourceKind::Application
    } else if str_equals(prefix, "window") {
        CaptureVideoSourceKind::Window
    } else {
        return Err(String::from_str(SOURCE_ID_PREFIX_UNKNOWN));
    };
    Ok(ParsedCaptureSourceId { kind, native_id: native.to_owned() })
}

impl std::str::FromStr for ParsedCaptureSourceId {
    type Err = String;

    fn from_str(source_id: &str) -> (r: Result<Self, Self::Err>)
        ensures
            parsed_view(r) == spec_parse_source_id(source_id@),
    {
        parse_capture_video_source_id(source_id)
    }
}

/// `char_index_from` finds `c` at `j` when nothing from `from` up to `j` is `c`.
proof fn lemma_char_index_at(s: Seq<char>, c: char, from: int, j: int)
    requires
        0 <= from <= j < s.len(),
        s[j] == c,
        forall|k: int| from <= k < j ==> s[k] != c,
    ensures
        char_index_from(s, c, from) == Some(j),
    decreases j - from,
{
    if from < j {
        lemma_char_index_at(s, c, from + 1, j);
    }
}

/// The id the library gives a source of `kind` whose backend id is `native`.
pub open spec fn source_id_of(kind: CaptureVideoSourceKind, native: Seq<char>) -> Seq<char> {
    kind.spec_label() + ":"@ + native
}

/// An id written as `kind:native` is parsed back into `kind` and `native` without its
/// surrounding white space, whenever that is not empty.
pub proof fn lemma_source_id_round_trip(kind: CaptureVideoSourceKind, native: Seq<char>)
    requires
        trimmed(native).len() > 0,
    ensures
        spec_parse_source_id(source_id_of(kind, native)) == Ok::<
            (CaptureVideoSourceKind, Seq<char>),
            Seq<char>,
        >((kind, trimmed(native))),
{
    reveal_strlit("display");
    reveal_strlit("application");
    reveal_strlit("window");
    reveal_strlit(":");
    let label = kind.spec_label();
    let s = source_id_of(kind, native);
    let j = label.len() as int;
    assert(s[j] == ':');
    assert forall|k: int| 0 <= k < j implies s[k] != ':' by {
        assert(s[k] == label[k]);
    }
    lemma_char_index_at(s, ':', 0, j);
    assert(s.subrange(0, j) =~= label);
    assert(s.subrange(j + 1, s.len() as int) =~= native);
    assert("display"@.len() == 7);
    assert("application"@.len() == 11);
    assert("window"@.len() == 6);
    assert("display"@ != "application"@);
    assert("display"@ != "window"@);
    assert("application"@ != "window"@);
}


/// A display, application or window that can be captured.
#[derive(Debug, Clone, PartialEq, Eq)]
pub struct CaptureVideoSource {
    pub id: String,
    pub kind: CaptureVideoSourceKind,
    pub title: String,
    pub app_name: Option<String>,
    pub process_id: Option<u32>,
    pub window_id: Option<u32>,
    pub primary: bool,
}

impl CaptureVideoSource {
    pub fn copy(&self) -> (r: CaptureVideoSource)
        ensures
            r == *self,
    {
        CaptureVideoSource {
            id: self.id.clone(),
            kind: self.kind,
            title: self.title.clone(),
            app_name: clone_opt_string(&self.app_name),
            process_id: self.process_id,
            window_id: self.window_id,
            primary: self.primary,
        }
    }
}

/// How source audio is to be captured for one video source.
#[derive(Debug, Clone, PartialEq, Eq)]
pub struct SourceAudioCaptureConfig {
    pub source_id: String,
    pub backend: String,
    pub sample_rate: Option<u32>,
    pub channels: Option<u16>,
    pub sample_format: Option<String>,
}

pub struct SourceAudioConfigView {
    pub source_id: Seq<char>,
    pub backend: Seq<char>,
    pub sample_rate: Option<u32>,
    pub channels: Option<u16>,
    pub sample_format: Option<Seq<char>>,
}

impl SourceAudioCaptureConfig {
    pub fn copy(&self) -> (r: SourceAudioCaptureConfig)
        ensures
            r == *self,
    {
        SourceAudioCaptureConfig {
            source_id: self.source_id.clone(),
            backend: self.backend.clone(),
            sample_rate: self.sample_rate,
            channels: self.channels,
            sample_format: clone_opt_string(&self.sample_format),
        }
    }
}

impl View for SourceAudioCaptureConfig {
    type V = SourceAudioConfigView;

    open spec fn view(&self) -> SourceAudioConfigView {
        SourceAudioConfigView {
            source_id: self.source_id@,
            backend: self.backend@,
            sample_rate: self.sample_rate,
            channels: self.channels,
            sample_format: opt_view(self.sample_format),
        }
    }
}


/// A microphone input device.
#[derive(Debug, Clone, PartialEq, Eq)]
pub struct MicrophoneDevice {
    pub id: String,
    pub name: String,
    pub is_default: bool,
    pub channels: Option<u16>,
    pub sample_rate: Option<u32>,
    pub error: Option<String>,
}

impl MicrophoneDevice {
    pub fn copy(&self) -> (r: MicrophoneDevice)
        ensures
            r == *self,
    {
        MicrophoneDevice {
            id: self.id.clone(),
            name: self.name.clone(),
            is_default: self.is_default,
            channels: self.channels,
            sample_rate: self.sample_rate,
            error: clone_opt_string(&self.error),
        }
    }
}

/// The audio part of a capture that can start.
#[derive(Debug, Clone, PartialEq, Eq)]
pub struct CaptureAudioConfig {
    pub mode: CaptureAudioMode,
    pub microphone: Option<MicrophoneDevice>,
    pub source_audio: Option<SourceAudioCaptureConfig>,
}

/// A capture selection that was checked against what is available.
#[derive(Debug, Clone, PartialEq, Eq)]
pub struct ValidatedCaptureConfig {
    pub video_source: CaptureVideoSource,
    pub screen_source: CaptureVideoSource,
    pub audio: CaptureAudioConfig,
    pub microphone: Option<MicrophoneDevice>,
    pub include_microphone: bool,
}

/// Everything the capture screen shows: capabilities, sources, the selection and whether it
/// can start.
#[derive(Debug, Clone, PartialEq, Eq)]
pub struct CaptureStatus {
    pub screen: CaptureCapability,
    pub microphone: CaptureCapability,
    pub source_audio: CaptureCapability,
    pub video_sources: Vec<CaptureVideoSource>,
    pub displays: Vec<CaptureVideoSource>,
    pub microphones: Vec<MicrophoneDevice>,
    pub selection: CaptureSelection,
    pub validated_config: Option<ValidatedCaptureConfig>,
    pub validation_errors: Vec<String>,
}

/// The microphone capability: unavailable when listing failed or found nothing, otherwise
/// supported with a permission not yet known.
pub open spec fn spec_microphone_capability(count: nat, error: Option<Seq<char>>) -> CapabilityView {
    match error {
        Some(e) => capability_of(false, CapturePermissionState::Unavailable, Some(e)),
        None => if count == 0 {
            capability_of(
                false,
                CapturePermissionState::Unavailable,
                Some("No microphone input devices were found."@),
            )
        } else {
            capability_of(true, CapturePermissionState::Unknown, None)
        },
    }
}

pub fn microphone_capability(microphones: &Vec<MicrophoneDevice>, error: Option<String>) -> (r:
    CaptureCapability)
    ensures
        r@ == spec_microphone_capability(microphones@.len(), opt_view(error)),
{
    if let Some(error) = error {
        return CaptureCapability {
            supported: false,
            permission_state: CapturePermissionState::Unavailable,
            error: Some(error),
        };
    }
    if microphones.len() == 0 {
        return CaptureCapability {
            supported: false,
            permission_state: CapturePermissionState::Unavailable,
            error: Some(String::from_str("No microphone input devices were found.")),
        };
    }
    CaptureCapability {
        supported: true,
        permission_state: CapturePermissionState::Unknown,
        error: None,
    }
}

/// The screen capability from what the capture library reports: whether capture is supported,
/// whether permission is held, and, when permission was requested, whether it was granted.
pub open spec fn spec_screen_capability(
    supported: bool,
    has_permission: bool,
    requested: Option<bool>,
) -> CapabilityView {
    if !supported {
        capability_of(
            false,
            CapturePermissionState::Unavailable,
            Some("Screen capture is not supported on this platform."@),
        )
    } else if has_permission {
        capability_of(true, CapturePermissionState::Granted, None)
    } else {
        match requested {
            None => capability_of(
                true,
                CapturePermissionState::PromptRequired,
                Some("Screen capture permission has not been granted."@),
            ),
            Some(true) => capability_of(true, CapturePermissionState::Granted, None),
            Some(false) => capability_of(
                true,
                CapturePermissionState::Denied,
                Some("Screen capture permission was denied or still requires OS approval."@),
            ),
        }
    }
}

pub fn screen_capability(supported: bool, has_permission: bool, requested: Option<bool>) -> (r:
    CaptureCapability)
    ensures
        r@ == spec_screen_capability(supported, has_permission, requested),
{
    if !supported {
        return CaptureCapability {
            supported: false,
            permission_state: CapturePermissionState::Unavailable,
            error: Some(String::from_str("Screen capture is not supported on this platform.")),
        };
    }
    if has_permission {
        return CaptureCapability {
            supported: true,
            permission_state: CapturePermissionState::Granted,
            error: None,
        };
    }
    match requested {
        None => CaptureCapability {
            supported: true,
            permission_state: CapturePermissionState::PromptRequired,
            error: Some(String::from_str("Screen capture permission has not been granted.")),
        },
        Some(granted) => CaptureCapability {
            supported: true,
            permission_state: if granted {
                CapturePermissionState::Granted
            } else {
                CapturePermissionState::Denied
            },
            error: if granted {
                None
            } else {
                Some(
                    String::from_str(
                        "Screen capture permission was denied or still requires OS approval.",
                    ),
                )
            },
        },
    }
}

/// Why opening a microphone stream failed.
#[derive(Debug, Clone, Copy, PartialEq, Eq, Structural)]
pub enum MicrophoneProbeErrorKind {
    PermissionDenied,
    DeviceNotAvailable,
    HostUnavailable,
    Other,
}

/// A failed attempt to open a microphone stream, with the audio library's message.
#[derive(Debug, Clone, PartialEq, Eq)]
pub struct MicrophoneProbeError {
    pub kind: MicrophoneProbeErrorKind,
    pub message: String,
}

/// The microphone capability after a test stream was opened: granted when it opened,
/// otherwise denied, or unavailable when the device or host is missing.
pub open spec fn spec_probed_microphone(
    capability: CapabilityView,
    outcome: Result<(), (MicrophoneProbeErrorKind, Seq<char>)>,
) -> CapabilityView {
    match outcome {
        Ok(()) => CapabilityView {
            permission_state: CapturePermissionState::Granted,
            error: None,
            ..capability
        },
        Err((kind, message)) => CapabilityView {
            permission_state: match kind {
                MicrophoneProbeErrorKind::DeviceNotAvailable
                | MicrophoneProbeErrorKind::HostUnavailable => CapturePermissionState::Unavailable,
                _ => CapturePermissionState::Denied,
            },
            error: Some(message),
            ..capability
        },
    }
}

pub open spec fn probe_view(outcome: Result<(), MicrophoneProbeError>) -> Result<
    (),
    (MicrophoneProbeErrorKind, Seq<char>),
> {
    match outcome {
        Ok(()) => Ok(()),
        Err(e) => Err((e.kind, e.message@)),
    }
}

pub fn apply_microphone_probe(
    capability: CaptureCapability,
    outcome: Result<(), MicrophoneProbeError>,
) -> (r: CaptureCapability)
    ensures
        r@ == spec_probed_microphone(capability@, probe_view(outcome)),
{
    match outcome {
        Ok(()) => CaptureCapability {
            permission_state: CapturePermissionState::Granted,
            error: None,
            ..capability
        },
        Err(error) => CaptureCapability {
            permission_state: match error.kind {
                MicrophoneProbeErrorKind::DeviceNotAvailable
                | MicrophoneProbeErrorKind::HostUnavailable => CapturePermissionState::Unavailable,
                _ => CapturePermissionState::Denied,
            },
            error: Some(error.message),
            ..capability
        },
    }
}

/// The first position at or after `from` whose element satisfies `pred`.
pub open spec fn first_match<T>(s: Seq<T>, pred: spec_fn(T) -> bool, from: int) -> Option<int>
    decreases s.len() - from,
{
    if from < 0 || from >= s.len() {
        None
    } else if pred(s[from]) {
        Some(from)
    } else {
        first_match(s, pred, from + 1)
    }
}

/// The first match is a match, and nothing before it matches.
pub proof fn lemma_first_match<T>(s: Seq<T>, pred: spec_fn(T) -> bool, from: int)
    requires
        0 <= from,
    ensures
        match first_match(s, pred, from) {
            Some(i) => from <= i < s.len() && pred(s[i]) && forall|j: int|
                from <= j < i ==> !pred(#[trigger] s[j]),
            None => forall|j: int| from <= j < s.len() ==> !pred(#[trigger] s[j]),
        },
    decreases s.len() - from,
{
    if from < s.len() && !pred(s[from]) {
        lemma_first_match(s, pred, from + 1);
    }
}

/// The source a parsed id names: the first of its kind whose own id parses to the same native
/// id.
pub open spec fn names_source(kind: CaptureVideoSourceKind, native: Seq<char>) -> spec_fn(
    CaptureVideoSource,
) -> bool {
    |source: CaptureVideoSource|
        source.kind == kind && match spec_parse_source_id(source.id@) {
            Ok((_, n)) => n == native,
            Err(_) => false,
        }
}

pub open spec fn is_primary_display() -> spec_fn(CaptureVideoSource) -> bool {
    |source: CaptureVideoSource| source.kind == CaptureVideoSourceKind::Display && source.primary
}

pub open spec fn is_display() -> spec_fn(CaptureVideoSource) -> bool {
    |source: CaptureVideoSource| source.kind == CaptureVideoSourceKind::Display
}

/// The video source used for a parsed selection: the source it names; with no selection, the
/// primary display, else the first display, else the first source.
pub open spec fn spec_selected_video_source(
    parsed: Option<(CaptureVideoSourceKind, Seq<char>)>,
    sources: Seq<CaptureVideoSource>,
) -> Option<int> {
    match parsed {
        Some((kind, native)) => first_match(sources, names_source(kind, native), 0),
        None => match first_match(sources, is_primary_display(), 0) {
            Some(i) => Some(i),
            None => match first_match(sources, is_display(), 0) {
                Some(i) => Some(i),
                None => if sources.len() > 0 {
                    Some(0)
                } else {
                    None
                },
            },
        },
    }
}

/// With no source selected, the capture uses the first primary display when there is one;
/// otherwise the first display; otherwise the first source; nothing only when there are no
/// sources. A selected id resolves to the first source of its kind whose own id carries the
/// same native id, and to nothing when no source does.
pub proof fn lemma_selected_video_source_choice(
    parsed: Option<(CaptureVideoSourceKind, Seq<char>)>,
    sources: Seq<CaptureVideoSource>,
)
    ensures
        ({
            let r = spec_selected_video_source(parsed, sources);
            let primary_display = |s: CaptureVideoSource|
                s.kind == CaptureVideoSourceKind::Display && s.primary;
            let display = |s: CaptureVideoSource| s.kind == CaptureVideoSourceKind::Display;
            match parsed {
                None => {
                    &&& r is None <==> sources.len() == 0
                    &&& r matches Some(i) ==> 0 <= i < sources.len()
                    &&& (exists|j: int| 0 <= j < sources.len() && primary_display(#[trigger] sources[j]))
                        ==> (r matches Some(i) && primary_display(sources[i]) && forall|j: int|
                        0 <= j < i ==> !primary_display(#[trigger] sources[j]))
                    &&& (!(exists|j: int| 0 <= j < sources.len() && primary_display(#[trigger] sources[j]))
                        && exists|j: int| 0 <= j < sources.len() && display(#[trigger] sources[j]))
                        ==> (r matches Some(i) && display(sources[i]) && forall|j: int|
                        0 <= j < i ==> !display(#[trigger] sources[j]))
                    &&& (!(exists|j: int| 0 <= j < sources.len() && display(#[trigger] sources[j]))
                        && sources.len() > 0) ==> r == Some(0int)
                },
                Some((kind, native)) => {
                    let named = names_source(kind, native);
                    &&& r matches Some(i) ==> 0 <= i < sources.len() && named(sources[i]) && forall|j: int|
                        0 <= j < i ==> !named(#[trigger] sources[j])
                    &&& r is None ==> forall|j: int| 0 <= j < sources.len() ==> !named(#[trigger] sources[j])
                },
            }
        }),
{
    lemma_first_match(sources, is_primary_display(), 0);
    lemma_first_match(sources, is_display(), 0);
    match parsed {
        Some((kind, native)) => {
            lemma_first_match(sources, names_source(kind, native), 0);
        },
        None => {},
    }
}

fn find_named_source(
    sources: &Vec<CaptureVideoSource>,
    kind: CaptureVideoSourceKind,
    native: &str,
) -> (r: Option<usize>)
    ensures
        r matches Some(i) ==> i < sources@.len(),
        match r {
            Some(i) => first_match(sources@, names_source(kind, native@), 0) == Some(i as int),
            None => first_match(sources@, names_source(kind, native@), 0) is None,
        },
{
    let mut i: usize = 0;
    while i < sources.len()
        invariant
            i <= sources@.len(),
            first_match(sources@, names_source(kind, native@), 0) == first_match(
                sources@,
                names_source(kind, native@),
                i as int,
            ),
        decreases sources.len() - i,
    {
        let source = &sources[i];
        if source.kind == kind {
            match parse_capture_video_source_id(source.id.as_str()) {
                Ok(parsed) => {
                    if str_equals(parsed.native_id.as_str(), native) {
                        return Some(i);
                    }
                },
                Err(_) => {},
            }
        }
        i = i + 1;
    }
    None
}

fn find_display(sources: &Vec<CaptureVideoSource>, primary_only: bool) -> (r: Option<usize>)
    ensures
        r matches Some(i) ==> i < sources@.len(),
        primary_only ==> match r {
            Some(i) => first_match(sources@, is_primary_display(), 0) == Some(i as int),
            None => first_match(sources@, is_primary_display(), 0) is None,
        },
        !primary_only ==> match r {
            Some(i) => first_match(sources@, is_display(), 0) == Some(i as int),
            None => first_match(sources@, is_display(), 0) is None,
        },
{
    let mut i: usize = 0;
    while i < sources.len()
        invariant
            i <= sources@.len(),
            primary_only ==> first_match(sources@, is_primary_display(), 0) == first_match(
                sources@,
                is_primary_display(),
                i as int,
            ),
            !primary_only ==> first_match(sources@, is_display(), 0) == first_match(
                sources@,
                is_display(),
                i as int,
            ),
        decreases sources.len() - i,
    {
        let source = &sources[i];
        if source.kind == CaptureVideoSourceKind::Display && (!primary_only || source.primary) {
            return Some(i);
        }
        i = i + 1;
    }
    None
}

pub open spec fn parsed_opt_view(parsed: Option<ParsedCaptureSourceId>) -> Option<
    (CaptureVideoSourceKind, Seq<char>),
> {
    match parsed {
        Some(p) => Some((p.kind, p.native_id@)),
        None => None,
    }
}

/// The position of the video source a selection resolves to.
pub fn selected_video_source(
    parsed: &Option<ParsedCaptureSourceId>,
    video_sources: &Vec<CaptureVideoSource>,
) -> (r: Option<usize>)
    ensures
        r matches Some(i) ==> i < video_sources@.len(),
        match r {
            Some(i) => spec_selected_video_source(parsed_opt_view(*parsed), video_sources@) == Some(
                i as int,
            ),
            None => spec_selected_video_source(parsed_opt_view(*parsed), video_sources@) is None,
        },
{
    match parsed {
        Some(p) => find_named_source(video_sources, p.kind, p.native_id.as_str()),
        None => {
            if let Some(i) = find_display(video_sources, true) {
                return Some(i);
            }
            if let Some(i) = find_display(video_sources, false) {
                return Some(i);
            }
            if video_sources.len() > 0 {
                Some(0)
            } else {
                None
            }
        },
    }
}

/// The id a selection names: the video source id, or the older screen source id.
pub open spec fn spec_selected_video_source_id(selection: CaptureSelection) -> Option<Seq<char>> {
    match selection.video_source_id {
        Some(id) => Some(id@),
        None => opt_view(selection.screen_source_id),
    }
}

pub fn selected_video_source_id(selection: &CaptureSelection) -> (r: Option<&str>)
    ensures
        match r {
            Some(id) => spec_selected_video_source_id(*selection) == Some(id@),
            None => spec_selected_video_source_id(*selection) is None,
        },
{
    match &selection.video_source_id {
        Some(id) => Some(id.as_str()),
        None => match &selection.screen_source_id {
            Some(id) => Some(id.as_str()),
            None => None,
        },
    }
}

pub open spec fn has_microphone_id(id: Seq<char>) -> spec_fn(MicrophoneDevice) -> bool {
    |device: MicrophoneDevice| device.id@ == id
}

pub open spec fn is_default_microphone() -> spec_fn(MicrophoneDevice) -> bool {
    |device: MicrophoneDevice| device.is_default
}

/// The microphone a selection uses: the one it names, else the default one, else the first.
pub open spec fn spec_selected_microphone(
    selected_id: Option<Seq<char>>,
    microphones: Seq<MicrophoneDevice>,
) -> Option<int> {
    let named = match selected_id {
        Some(id) => first_match(microphones, has_microphone_id(id), 0),
        None => None,
    };
    match named {
        Some(i) => Some(i),
        None => match first_match(microphones, is_default_microphone(), 0) {
            Some(i) => Some(i),
            None => if microphones.len() > 0 {
                Some(0)
            } else {
                None
            },
        },
    }
}

fn find_microphone(microphones: &Vec<MicrophoneDevice>, id: Option<&str>) -> (r: Option<usize>)
    ensures
        r matches Some(i) ==> i < microphones@.len(),
        match id {
            Some(id) => match r {
                Some(i) => first_match(microphones@, has_microphone_id(id@), 0) == Some(i as int),
                None => first_match(microphones@, has_microphone_id(id@), 0) is None,
            },
            None => match r {
                Some(i) => first_match(microphones@, is_default_microphone(), 0) == Some(i as int),
                None => first_match(microphones@, is_default_microphone(), 0) is None,
            },
        },
{
    let mut i: usize = 0;
    while i < microphones.len()
        invariant
            i <= microphones@.len(),
            match id {
                Some(id) => first_match(microphones@, has_microphone_id(id@), 0) == first_match(
                    microphones@,
                    has_microphone_id(id@),
                    i as int,
                ),
                None => first_match(microphones@, is_default_microphone(), 0) == first_match(
                    microphones@,
                    is_default_microphone(),
                    i as int,
                ),
            },
        decreases microphones.len() - i,
    {
        let device = &microphones[i];
        let found = match id {
            Some(id) => str_equals(device.id.as_str(), id),
            None => device.is_default,
        };
        if found {
            return Some(i);
        }
        i = i + 1;
    }
    None
}

/// The position of the microphone a selection resolves to.
pub fn selected_microphone(selection: &CaptureSelection, microphones: &Vec<MicrophoneDevice>) -> (r:
    Option<usize>)
    ensures
        r matches Some(i) ==> i < microphones@.len(),
        match r {
            Some(i) => spec_selected_microphone(opt_view(selection.microphone_device_id), microphones@)
                == Some(i as int),
            None => spec_selected_microphone(
                opt_view(selection.microphone_device_id),
                microphones@,
            ) is None,
        },
{
    if let Some(id) = &selection.microphone_device_id {
        if let Some(i) = find_microphone(microphones, Some(id.as_str())) {
            return Some(i);
        }
    }
    if let Some(i) = find_microphone(microphones, None) {
        return Some(i);
    }
    if microphones.len() > 0 {
        Some(0)
    } else {
        None
    }
}


pub const APPLICATION_VIDEO_ERROR: &'static str =
    "Application video capture is not available with the current capture backend. Select a window from that application instead.";

pub open spec fn spec_screen_errors(screen: CapabilityView) -> Seq<Seq<char>> {
    if !screen.supported {
        seq![error_or(screen.error, "Screen capture is not supported."@)]
    } else if screen.permission_state != CapturePermissionState::Granted {
        seq![error_or(screen.error, "Screen capture permission is not granted."@)]
    } else {
        seq![]
    }
}

/// The selected id parsed: nothing selected, a parsed id, or why it does not parse.
pub open spec fn spec_parsed_selection(selection: CaptureSelection) -> Result<
    Option<(CaptureVideoSourceKind, Seq<char>)>,
    Seq<char>,
> {
    match spec_selected_video_source_id(selection) {
        None => Ok(None),
        Some(id) => match spec_parse_source_id(id) {
            Ok(p) => Ok(Some(p)),
            Err(e) => Err(e),
        },
    }
}

/// The position of the video source a selection resolves to among `sources`.
pub open spec fn spec_video_index(selection: CaptureSelection, sources: Seq<CaptureVideoSource>) -> Option<
    int,
> {
    match spec_parsed_selection(selection) {
        Ok(parsed) => spec_selected_video_source(parsed, sources),
        Err(_) => None,
    }
}

pub open spec fn spec_source_errors(selection: CaptureSelection, sources: Seq<CaptureVideoSource>) -> Seq<
    Seq<char>,
> {
    let parse_errors = match spec_parsed_selection(selection) {
        Err(e) => seq!["Selected video source id is invalid: "@ + e],
        Ok(_) => seq![],
    };
    let availability_errors = if sources.len() == 0 {
        seq!["No video sources are available for capture."@]
    } else {
        match spec_parsed_selection(selection) {
            Ok(Some((kind, _))) => if spec_video_index(selection, sources) is None {
                seq!["The selected "@ + kind.spec_label() + " is no longer available."@]
            } else {
                seq![]
            },
            _ => seq![],
        }
    };
    let application_errors = match spec_video_index(selection, sources) {
        Some(i) => if sources[i].kind == CaptureVideoSourceKind::Application {
            seq![APPLICATION_VIDEO_ERROR@]
        } else {
            seq![]
        },
        None => seq![],
    };
    parse_errors + availability_errors + application_errors
}

/// The position of the microphone used, when the audio mode records one.
pub open spec fn spec_microphone_index(
    selection: CaptureSelection,
    microphones: Seq<MicrophoneDevice>,
) -> Option<int> {
    if selection.audio_mode.spec_includes_microphone() {
        spec_selected_microphone(opt_view(selection.microphone_device_id), microphones)
    } else {
        None
    }
}

pub open spec fn spec_microphone_errors(
    selection: CaptureSelection,
    microphone: CapabilityView,
    microphones: Seq<MicrophoneDevice>,
) -> Seq<Seq<char>> {
    if selection.audio_mode.spec_includes_microphone() {
        let capability_errors = if !microphone.supported {
            seq![error_or(microphone.error, "Microphone capture is not available."@)]
        } else if microphone.permission_state == CapturePermissionState::Denied
            || microphone.permission_state == CapturePermissionState::Unavailable {
            seq![error_or(microphone.error, "Microphone permission is not granted."@)]
        } else {
            seq![]
        };
        let device_errors = if microphones.len() == 0 {
            seq!["No microphone input devices are available."@]
        } else if selection.microphone_device_id is Some && spec_selected_microphone(
            opt_view(selection.microphone_device_id),
            microphones,
        ) is None {
            seq!["The selected microphone is no longer available."@]
        } else {
            seq![]
        };
        capability_errors + device_errors
    } else {
        seq![]
    }
}

/// The source audio configuration of a selection and the errors it raises.
pub open spec fn spec_source_audio_part(
    selection: CaptureSelection,
    sources: Seq<CaptureVideoSource>,
    source_audio: CapabilityView,
    platform: PlatformBackend,
) -> (Option<SourceAudioConfigView>, Seq<Seq<char>>) {
    if selection.audio_mode.spec_includes_source_audio() {
        if !source_audio.supported {
            (None, seq![error_or(source_audio.error, "Source audio capture is not available."@)])
        } else if source_audio.permission_state == CapturePermissionState::Denied
            || source_audio.permission_state == CapturePermissionState::Unavailable {
            (None, seq![error_or(source_audio.error, "Source audio permission is not granted."@)])
        } else {
            match spec_video_index(selection, sources) {
                Some(i) => match spec_source_audio_config(sources[i].kind, sources[i].id@, platform) {
                    Ok(c) => (Some(c), seq![]),
                    Err(e) => (None, seq![e]),
                },
                None => (None, seq![]),
            }
        }
    } else {
        (None, seq![])
    }
}

/// Every reason a selection cannot start, in the order they are reported.
pub open spec fn spec_validation_errors(
    selection: CaptureSelection,
    screen: CapabilityView,
    sources: Seq<CaptureVideoSource>,
    microphone: CapabilityView,
    microphones: Seq<MicrophoneDevice>,
    source_audio: CapabilityView,
    platform: PlatformBackend,
) -> Seq<Seq<char>> {
    spec_screen_errors(screen) + spec_source_errors(selection, sources) + spec_microphone_errors(
        selection,
        microphone,
        microphones,
    ) + spec_source_audio_part(selection, sources, source_audio, platform).1
}

pub open spec fn opt_config_view(c: Option<SourceAudioCaptureConfig>) -> Option<SourceAudioConfigView> {
    match c {
        Some(c) => Some(c@),
        None => None,
    }
}

/// The validated configuration: present exactly when there is no error and a video source
/// was found; it holds that source, the microphone in use and the source audio configuration.
pub open spec fn validated_config_matches(
    config: Option<ValidatedCaptureConfig>,
    selection: CaptureSelection,
    screen: CapabilityView,
    sources: Seq<CaptureVideoSource>,
    microphone: CapabilityView,
    microphones: Seq<MicrophoneDevice>,
    source_audio: CapabilityView,
    platform: PlatformBackend,
) -> bool {
    match config {
        Some(c) => {
            &&& spec_validation_errors(
                selection,
                screen,
                sources,
                microphone,
                microphones,
                source_audio,
                platform,
            ).len() == 0
            &&& spec_video_index(selection, sources) matches Some(i)
            &&& c.video_source == sources[i]
            &&& c.screen_source == sources[i]
            &&& c.audio.mode == selection.audio_mode
            &&& c.microphone == match spec_microphone_index(selection, microphones) {
                Some(m) => Some(microphones[m]),
                None => None,
            }
            &&& c.audio.microphone == c.microphone
            &&& opt_config_view(c.audio.source_audio) == spec_source_audio_part(
                selection,
                sources,
                source_audio,
                platform,
            ).0
            &&& c.include_microphone == selection.audio_mode.spec_includes_microphone()
        },
        None => spec_validation_errors(
            selection,
            screen,
            sources,
            microphone,
            microphones,
            source_audio,
            platform,
        ).len() > 0 || spec_video_index(selection, sources) is None,
    }
}

fn push_message(errors: &mut Vec<String>, message: String)
    ensures
        string_views(final(errors)@) == string_views(old(errors)@).push(message@),
{
    errors.push(message);
    assert(string_views(errors@) =~= string_views(old(errors)@).push(message@));
}

fn copy_opt_microphone(device: &Option<MicrophoneDevice>) -> (r: Option<MicrophoneDevice>)
    ensures
        r == *device,
{
    match device {
        Some(d) => Some(d.copy()),
        None => None,
    }
}

fn copy_opt_source_audio(config: &Option<SourceAudioCaptureConfig>) -> (r: Option<
    SourceAudioCaptureConfig,
>)
    ensures
        r == *config,
{
    match config {
        Some(c) => Some(c.copy()),
        None => None,
    }
}

fn extend_messages(errors: &mut Vec<String>, more: Vec<String>)
    ensures
        string_views(final(errors)@) == string_views(old(errors)@) + string_views(more@),
{
    let mut more = more;
    let ghost first = string_views(errors@);
    let ghost rest = string_views(more@);
    errors.append(&mut more);
    assert(string_views(errors@) =~= first + rest);
}

fn screen_messages(screen: &CaptureCapability) -> (v: Vec<String>)
    ensures
        string_views(v@) == spec_screen_errors(screen@),
{
    let mut errors: Vec<String> = Vec::new();
    if !screen.supported {
        push_message(&mut errors, error_or_else(&screen.error, "Screen capture is not supported."));
    } else if screen.permission_state != CapturePermissionState::Granted {
        push_message(
            &mut errors,
            error_or_else(&screen.error, "Screen capture permission is not granted."),
        );
    }
    assert(string_views(errors@) =~= spec_screen_errors(screen@));
    errors
}

pub open spec fn parsed_selection_view(
    parsed: Result<Option<ParsedCaptureSourceId>, String>,
) -> Result<Option<(CaptureVideoSourceKind, Seq<char>)>, Seq<char>> {
    match parsed {
        Ok(p) => Ok(parsed_opt_view(p)),
        Err(e) => Err(e@),
    }
}

fn parsed_selection(selection: &CaptureSelection) -> (r: Result<
    Option<ParsedCaptureSourceId>,
    String,
>)
    ensures
        parsed_selection_view(r) == spec_parsed_selection(*selection),
{
    match selected_video_source_id(selection) {
        None => Ok(None),
        Some(id) => match parse_capture_video_source_id(id) {
            Ok(p) => Ok(Some(p)),
            Err(e) => Err(e),
        },
    }
}

fn source_messages(
    selection: &CaptureSelection,
    video_sources: &Vec<CaptureVideoSource>,
    parsed: &Result<Option<ParsedCaptureSourceId>, String>,
    video_index: Option<usize>,
) -> (v: Vec<String>)
    requires
        parsed_selection_view(*parsed) == spec_parsed_selection(*selection),
        match video_index {
            Some(i) => i < video_sources@.len() && spec_video_index(*selection, video_sources@)
                == Some(i as int),
            None => spec_video_index(*selection, video_sources@) is None,
        },
    ensures
        string_views(v@) == spec_source_errors(*selection, video_sources@),
{
    let ghost sel = *selection;
    let ghost sources = video_sources@;
    let mut errors: Vec<String> = Vec::new();
    if let Err(e) = parsed {
        push_message(
            &mut errors,
            String::from_str("Selected video source id is invalid: ").concat(e.as_str()),
        );
    }
    if video_sources.len() == 0 {
        push_message(&mut errors, String::from_str("No video sources are available for capture."));
    } else if let Ok(Some(p)) = parsed {
        if video_index.is_none() {
            push_message(
                &mut errors,
                String::from_str("The selected ").concat(p.kind.label()).concat(
                    " is no longer available.",
                ),
            );
        }
    }
    if let Some(i) = video_index {
        if video_sources[i].kind == CaptureVideoSourceKind::Application {
            push_message(&mut errors, String::from_str(APPLICATION_VIDEO_ERROR));
        }
    }
    assert(string_views(errors@) =~= spec_source_errors(sel, sources));
    errors
}

fn microphone_messages(
    selection: &CaptureSelection,
    microphone: &CaptureCapability,
    microphones: &Vec<MicrophoneDevice>,
    selected: Option<usize>,
) -> (v: Vec<String>)
    requires
        selection.audio_mode.spec_includes_microphone(),
        match selected {
            Some(i) => spec_selected_microphone(
                opt_view(selection.microphone_device_id),
                microphones@,
            ) == Some(i as int),
            None => spec_selected_microphone(
                opt_view(selection.microphone_device_id),
                microphones@,
            ) is None,
        },
    ensures
        string_views(v@) == spec_microphone_errors(*selection, microphone@, microphones@),
{
    let mut errors: Vec<String> = Vec::new();
    if !microphone.supported {
        push_message(
            &mut errors,
            error_or_else(&microphone.error, "Microphone capture is not available."),
        );
    } else if microphone.permission_state == CapturePermissionState::Denied
        || microphone.permission_state == CapturePermissionState::Unavailable {
        push_message(
            &mut errors,
            error_or_else(&microphone.error, "Microphone permission is not granted."),
        );
    }
    if microphones.len() == 0 {
        push_message(&mut errors, String::from_str("No microphone input devices are available."));
    } else if selection.microphone_device_id.is_some() && selected.is_none() {
        push_message(
            &mut errors,
            String::from_str("The selected microphone is no longer available."),
        );
    }
    assert(string_views(errors@) =~= spec_microphone_errors(*selection, microphone@, microphones@));
    errors
}

fn source_audio_part(
    selection: &CaptureSelection,
    video_sources: &Vec<CaptureVideoSource>,
    video_index: Option<usize>,
    source_audio: &CaptureCapability,
    platform: PlatformBackend,
) -> (r: (Option<SourceAudioCaptureConfig>, Vec<String>))
    requires
        match video_index {
            Some(i) => i < video_sources@.len() && spec_video_index(*selection, video_sources@)
                == Some(i as int),
            None => spec_video_index(*selection, video_sources@) is None,
        },
    ensures
        opt_config_view(r.0) == spec_source_audio_part(
            *selection,
            video_sources@,
            source_audio@,
            platform,
        ).0,
        string_views(r.1@) == spec_source_audio_part(
            *selection,
            video_sources@,
            source_audio@,
            platform,
        ).1,
{
    let mut errors: Vec<String> = Vec::new();
    let mut config: Option<SourceAudioCaptureConfig> = None;
    if selection.audio_mode.includes_source_audio() {
        if !source_audio.supported {
            push_message(
                &mut errors,
                error_or_else(&source_audio.error, "Source audio capture is not available."),
            );
        } else if source_audio.permission_state == CapturePermissionState::Denied
            || source_audio.permission_state == CapturePermissionState::Unavailable {
            push_message(
                &mut errors,
                error_or_else(&source_audio.error, "Source audio permission is not granted."),
            );
        } else if let Some(i) = video_index {
            match source_audio_config(&video_sources[i], platform) {
                Ok(c) => {
                    config = Some(c);
                },
                Err(error) => {
                    push_message(&mut errors, error);
                },
            }
        }
    }
    assert(string_views(errors@) =~= spec_source_audio_part(
        *selection,
        video_sources@,
        source_audio@,
        platform,
    ).1);
    (config, errors)
}

/// Checks a selection against the capabilities and devices found, and builds the capture
/// configuration when nothing stands in the way.
pub fn validate_status(
    selection: &CaptureSelection,
    screen: &CaptureCapability,
    video_sources: &Vec<CaptureVideoSource>,
    microphone: &CaptureCapability,
    microphones: &Vec<MicrophoneDevice>,
    source_audio: &CaptureCapability,
    platform: PlatformBackend,
) -> (r: (Option<ValidatedCaptureConfig>, Vec<String>))
    ensures
        string_views(r.1@) == spec_validation_errors(
            *selection,
            screen@,
            video_sources@,
            microphone@,
            microphones@,
            source_audio@,
            platform,
        ),
        validated_config_matches(
            r.0,
            *selection,
            screen@,
            video_sources@,
            microphone@,
            microphones@,
            source_audio@,
            platform,
        ),
{
    let mut errors = screen_messages(screen);
    let parsed = parsed_selection(selection);
    let video_index = match &parsed {
        Ok(p) => selected_video_source(p, video_sources),
        Err(_) => None,
    };
    extend_messages(&mut errors, source_messages(selection, video_sources, &parsed, video_index));
    let microphone_device: Option<MicrophoneDevice> = if selection.audio_mode.includes_microphone() {
        let selected = selected_microphone(selection, microphones);
        extend_messages(
            &mut errors,
            microphone_messages(selection, microphone, microphones, selected),
        );
        match selected {
            Some(i) => Some(microphones[i].copy()),
            None => None,
        }
    } else {
        assert(spec_microphone_errors(*selection, microphone@, microphones@) =~= Seq::<
            Seq<char>,
        >::empty());
        assert(string_views(errors@) + Seq::<Seq<char>>::empty() =~= string_views(errors@));
        None
    };
    let (source_audio_setup, more) = source_audio_part(
        selection,
        video_sources,
        video_index,
        source_audio,
        platform,
    );
    extend_messages(&mut errors, more);
    let config = if errors.len() == 0 {
        match video_index {
            Some(i) => {
                let video_source = video_sources[i].copy();
                Some(
                    ValidatedCaptureConfig {
                        screen_source: video_source.copy(),
                        video_source,
                        audio: CaptureAudioConfig {
                            mode: selection.audio_mode,
                            microphone: copy_opt_microphone(&microphone_device),
                            source_audio: copy_opt_source_audio(&source_audio_setup),
                        },
                        microphone: microphone_device,
                        include_microphone: selection.audio_mode.includes_microphone(),
                    },
                )
            },
            None => None,
        }
    } else {
        None
    };
    (config, errors)
}


/// The display sources among `sources`, in order.
pub fn display_sources(sources: &Vec<CaptureVideoSource>) -> (r: Vec<CaptureVideoSource>)
    ensures
        r@ == sources@.filter(is_display()),
{
    let mut displays: Vec<CaptureVideoSource> = Vec::new();
    let mut i: usize = 0;
    assert(sources@.subrange(0, 0).filter(is_display()) =~= Seq::<CaptureVideoSource>::empty())
        by {
        reveal(Seq::filter);
    }
    while i < sources.len()
        invariant
            i <= sources@.len(),
            displays@ == sources@.subrange(0, i as int).filter(is_display()),
        decreases sources.len() - i,
    {
        let source = &sources[i];
        proof {
            sources@.subrange(0, i as int).lemma_filter_push(sources@[i as int], is_display());
            assert(sources@.subrange(0, i as int).push(sources@[i as int]) =~= sources@.subrange(
                0,
                i + 1,
            ));
        }
        if source.kind == CaptureVideoSourceKind::Display {
            displays.push(source.copy());
        }
        i = i + 1;
    }
    assert(sources@.subrange(0, sources@.len() as int) =~= sources@);
    displays
}

/// What the application found out from the operating system before building a capture status:
/// the screen capability, the listing of video sources (made only when screen capture is
/// granted), the microphones or the reason they could not be listed, the outcome of a test
/// microphone stream when one was opened, the platform, and whether the capture library
/// supports source audio here.
#[derive(Debug)]
pub struct CaptureProbe {
    pub screen: CaptureCapability,
    pub listed_sources: Result<Vec<CaptureVideoSource>, String>,
    pub microphones: Vec<MicrophoneDevice>,
    pub microphone_error: Option<String>,
    pub microphone_probe: Option<Result<(), MicrophoneProbeError>>,
    pub platform: PlatformBackend,
    pub source_audio_supported: bool,
}

/// The screen capability once the source listing is known: a failed listing makes screen
/// capture unavailable with the listing's message.
pub open spec fn spec_listed_screen(probe: CaptureProbe) -> CapabilityView {
    if probe.screen.permission_state == CapturePermissionState::Granted {
        match probe.listed_sources {
            Ok(_) => probe.screen@,
            Err(e) => capability_of(false, CapturePermissionState::Unavailable, Some(e@)),
        }
    } else {
        probe.screen@
    }
}

/// The video sources a status lists: those listed, when screen capture is granted.
pub open spec fn spec_listed_sources(probe: CaptureProbe) -> Seq<CaptureVideoSource> {
    if probe.screen.permission_state == CapturePermissionState::Granted {
        match probe.listed_sources {
            Ok(v) => v@,
            Err(_) => Seq::empty(),
        }
    } else {
        Seq::empty()
    }
}

/// The microphone capability of a status: from the listing, then from the test stream when the
/// selection records a microphone and one was opened.
pub open spec fn spec_status_microphone(selection: CaptureSelection, probe: CaptureProbe) -> CapabilityView {
    let listed = spec_microphone_capability(probe.microphones@.len(), opt_view(probe.microphone_error));
    if selection.audio_mode.spec_includes_microphone() && listed.supported {
        match probe.microphone_probe {
            Some(outcome) => spec_probed_microphone(listed, probe_view(outcome)),
            None => listed,
        }
    } else {
        listed
    }
}

/// Whether a test microphone stream should be opened: when asked, the selection records a
/// microphone and microphones were found.
pub fn microphone_probe_wanted(
    selection: &CaptureSelection,
    microphone: &CaptureCapability,
    probe_requested: bool,
) -> (r: bool)
    ensures
        r == (selection.audio_mode.spec_includes_microphone() && probe_requested
            && microphone.supported),
{
    selection.audio_mode.includes_microphone() && probe_requested && microphone.supported
}

pub open spec fn status_matches(r: CaptureStatus, selection: CaptureSelection, probe: CaptureProbe) -> bool {
    let screen = spec_listed_screen(probe);
    let sources = spec_listed_sources(probe);
    let microphone = spec_status_microphone(selection, probe);
    let source_audio = spec_source_audio_capability(
        screen,
        probe.platform,
        probe.source_audio_supported,
    );
    &&& r.screen@ == screen
    &&& r.video_sources@ == sources
    &&& r.displays@ == sources.filter(is_display())
    &&& r.microphones == probe.microphones
    &&& r.microphone@ == microphone
    &&& r.source_audio@ == source_audio
    &&& r.selection == selection
    &&& string_views(r.validation_errors@) == spec_validation_errors(
        selection,
        screen,
        sources,
        microphone,
        probe.microphones@,
        source_audio,
        probe.platform,
    )
    &&& validated_config_matches(
        r.validated_config,
        selection,
        screen,
        sources,
        microphone,
        probe.microphones@,
        source_audio,
        probe.platform,
    )
}

/// The capture status for a selection, from what the operating system reported.
pub fn build_status(selection: CaptureSelection, probe: CaptureProbe) -> (r: CaptureStatus)
    ensures
        status_matches(r, selection, probe),
{
    let ghost p = probe;
    let CaptureProbe {
        screen,
        listed_sources,
        microphones,
        microphone_error,
        microphone_probe,
        platform,
        source_audio_supported,
    } = probe;
    let granted = screen.permission_state == CapturePermissionState::Granted;
    let (screen, video_sources) = if granted {
        match listed_sources {
            Ok(sources) => (screen, sources),
            Err(error) => (
                CaptureCapability {
                    supported: false,
                    permission_state: CapturePermissionState::Unavailable,
                    error: Some(error),
                },
                Vec::new(),
            ),
        }
    } else {
        (screen, Vec::new())
    };
    assert(screen@ == spec_listed_screen(p));
    assert(video_sources@ =~= spec_listed_sources(p));
    let displays = display_sources(&video_sources);
    let mut microphone = microphone_capability(&microphones, microphone_error);
    let source_audio = source_audio_capability(&screen, platform, source_audio_supported);
    if selection.audio_mode.includes_microphone() && microphone.supported {
        if let Some(outcome) = microphone_probe {
            microphone = apply_microphone_probe(microphone, outcome);
        }
    }
    let (validated_config, validation_errors) = validate_status(
        &selection,
        &screen,
        &video_sources,
        &microphone,
        &microphones,
        &source_audio,
        platform,
    );
    CaptureStatus {
        screen,
        microphone,
        source_audio,
        video_sources,
        displays,
        microphones,
        selection,
        validated_config,
        validation_errors,
    }
}

/// A probe with no test microphone stream: what the status shown without asking for any
/// permission is built from.
pub open spec fn without_microphone_test(probe: CaptureProbe) -> CaptureProbe {
    CaptureProbe { microphone_probe: None, ..probe }
}

/// The capture status shown without asking for any permission: no test microphone stream is
/// taken into account, so the microphone is as its listing shows it.
pub fn capture_status(selection: CaptureSelection, probe: CaptureProbe) -> (r: CaptureStatus)
    ensures
        status_matches(r, selection, without_microphone_test(probe)),
        r.microphone@ == spec_microphone_capability(
            probe.microphones@.len(),
            opt_view(probe.microphone_error),
        ),
{
    let CaptureProbe {
        screen,
        listed_sources,
        microphones,
        microphone_error,
        microphone_probe: _,
        platform,
        source_audio_supported,
    } = probe;
    build_status(
        selection,
        CaptureProbe {
            screen,
            listed_sources,
            microphones,
            microphone_error,
            microphone_probe: None,
            platform,
            source_audio_supported,
        },
    )
}

/// The capture status after screen permission was requested and a test microphone stream was
/// opened.
pub fn request_capture_permissions(selection: CaptureSelection, probe: CaptureProbe) -> (r:
    CaptureStatus)
    ensures
        status_matches(r, selection, probe),
{
    build_status(selection, probe)
}

/// The capture configuration of a selection, or every reason it cannot start, joined by
/// spaces.
pub fn validate_capture_config(selection: CaptureSelection, probe: CaptureProbe) -> (r: Result<
    ValidatedCaptureConfig,
    String,
>)
    ensures
        ({
            let screen = spec_listed_screen(probe);
            let sources = spec_listed_sources(probe);
            let microphone = spec_status_microphone(selection, probe);
            let source_audio = spec_source_audio_capability(
                screen,
                probe.platform,
                probe.source_audio_supported,
            );
            let errors = spec_validation_errors(
                selection,
                screen,
                sources,
                microphone,
                probe.microphones@,
                source_audio,
                probe.platform,
            );
            match r {
                Ok(config) => validated_config_matches(
                    Some(config),
                    selection,
                    screen,
                    sources,
                    microphone,
                    probe.microphones@,
                    source_audio,
                    probe.platform,
                ),
                Err(message) => message@ == seq_join(errors, " "@) && (errors.len() > 0
                    || spec_video_index(selection, sources) is None),
            }
        }),
{
    let status = build_status(selection, probe);
    match status.validated_config {
        Some(config) => Ok(config),
        None => Err(join(&status.validation_errors, " ")),
    }
}


/// The model of a [`CaptureVideoSource`]: its texts as characters.
pub struct CaptureVideoSourceView {
    pub id: Seq<char>,
    pub kind: CaptureVideoSourceKind,
    pub title: Seq<char>,
    pub app_name: Option<Seq<char>>,
    pub process_id: Option<u32>,
    pub window_id: Option<u32>,
    pub primary: bool,
}

impl View for CaptureVideoSource {
    type V = CaptureVideoSourceView;

    open spec fn view(&self) -> CaptureVideoSourceView {
        CaptureVideoSourceView {
            id: self.id@,
            kind: self.kind,
            title: self.title@,
            app_name: opt_view(self.app_name),
            process_id: self.process_id,
            window_id: self.window_id,
            primary: self.primary,
        }
    }
}

pub open spec fn source_views(sources: Seq<CaptureVideoSource>) -> Seq<CaptureVideoSourceView> {
    sources.map_values(|source: CaptureVideoSource| source@)
}

/// A display or window as the capture library lists it.
#[derive(Debug, Clone, PartialEq, Eq)]
pub enum CaptureTarget {
    Display { id: u32, title: String },
    Window { id: u32, title: String },
}

/// The title of this application's own window, which is never offered for capture.
pub const OWN_WINDOW_TITLE: &'static str = "Metafy Desktop";

pub open spec fn spec_display_count(targets: Seq<CaptureTarget>) -> nat
    decreases targets.len(),
{
    if targets.len() == 0 {
        0
    } else {
        spec_display_count(targets.drop_last()) + match targets.last() {
            CaptureTarget::Display { .. } => 1nat,
            CaptureTarget::Window { .. } => 0nat,
        }
    }
}

/// Whether a window target is offered as a video source: windows can be captured here, and its
/// trimmed title is not empty and is not this application's own window.
pub open spec fn window_listed(title: Seq<char>, windows_supported: bool) -> bool {
    windows_supported && trimmed(title).len() > 0 && !seq_contains(trimmed(title), OWN_WINDOW_TITLE@)
}

/// The video sources made from the listed targets: every display, with id `display:<id>`,
/// primary when it is the main display (or, when the main display is not known, when it is the
/// first display); and every window that is offered, with id `window:<id>` and its trimmed
/// title.
pub open spec fn spec_sources_from_targets(
    targets: Seq<CaptureTarget>,
    main_display_id: Option<u32>,
    windows_supported: bool,
) -> Seq<CaptureVideoSourceView>
    decreases targets.len(),
{
    if targets.len() == 0 {
        Seq::empty()
    } else {
        let earlier = spec_sources_from_targets(
            targets.drop_last(),
            main_display_id,
            windows_supported,
        );
        match targets.last() {
            CaptureTarget::Display { id, title } => earlier.push(
                CaptureVideoSourceView {
                    id: source_id_of(CaptureVideoSourceKind::Display, decimal(id as nat)),
                    kind: CaptureVideoSourceKind::Display,
                    title: title@,
                    app_name: None,
                    process_id: None,
                    window_id: None,
                    primary: match main_display_id {
                        Some(main) => main == id,
                        None => spec_display_count(targets.drop_last()) == 0,
                    },
                },
            ),
            CaptureTarget::Window { id, title } => if window_listed(title@, windows_supported) {
                earlier.push(
                    CaptureVideoSourceView {
                        id: source_id_of(CaptureVideoSourceKind::Window, decimal(id as nat)),
                        kind: CaptureVideoSourceKind::Window,
                        title: trimmed(title@),
                        app_name: None,
                        process_id: None,
                        window_id: Some(id),
                        primary: false,
                    },
                )
            } else {
                earlier
            },
        }
    }
}

/// The video sources offered for the targets the capture library listed.
pub fn video_sources_from_targets(
    targets: &Vec<CaptureTarget>,
    main_display_id: Option<u32>,
    platform: PlatformBackend,
) -> (r: Vec<CaptureVideoSource>)
    ensures
        source_views(r@) == spec_sources_from_targets(
            targets@,
            main_display_id,
            platform.spec_window_sources_supported(),
        ),
{
    let windows_supported = platform.window_sources_supported();
    let mut sources: Vec<CaptureVideoSource> = Vec::new();
    let mut display_count: usize = 0;
    let mut i: usize = 0;
    while i < targets.len()
        invariant
            i <= targets@.len(),
            windows_supported == platform.spec_window_sources_supported(),
            display_count == spec_display_count(targets@.subrange(0, i as int)),
            display_count <= i,
            source_views(sources@) == spec_sources_from_targets(
                targets@.subrange(0, i as int),
                main_display_id,
                windows_supported,
            ),
        decreases targets.len() - i,
    {
        let ghost prefix = targets@.subrange(0, i as int);
        let ghost next = targets@.subrange(0, i + 1);
        assert(next.drop_last() =~= prefix);
        assert(next.last() == targets@[i as int]);
        let ghost before = sources@;
        match &targets[i] {
            CaptureTarget::Display { id, title } => {
                let primary = match main_display_id {
                    Some(main) => main == *id,
                    None => display_count == 0,
                };
                display_count = display_count + 1;
                let source = CaptureVideoSource {
                    id: String::from_str("display:").concat(u64_to_decimal(*id as u64).as_str()),
                    kind: CaptureVideoSourceKind::Display,
                    title: title.clone(),
                    app_name: None,
                    process_id: None,
                    window_id: None,
                    primary,
                };
                proof {
                    reveal_strlit("display:");
                    reveal_strlit("display");
                    reveal_strlit(":");
                    assert("display:"@ =~= "display"@ + ":"@);
                }
                sources.push(source);
            },
            CaptureTarget::Window { id, title } => {
                let trimmed_title = trim(title.as_str());
                if windows_supported && trimmed_title.unicode_len() > 0 && !contains_str(
                    trimmed_title,
                    OWN_WINDOW_TITLE,
                ) {
                    let source = CaptureVideoSource {
                        id: String::from_str("window:").concat(
                            u64_to_decimal(*id as u64).as_str(),
                        ),
                        kind: CaptureVideoSourceKind::Window,
                        title: trimmed_title.to_owned(),
                        app_name: None,
                        process_id: None,
                        window_id: Some(*id),
                        primary: false,
                    };
                    proof {
                        reveal_strlit("window:");
                        reveal_strlit("window");
                        reveal_strlit(":");
                        assert("window:"@ =~= "window"@ + ":"@);
                    }
                    sources.push(source);
                }
            },
        }
        assert(source_views(sources@) =~= spec_sources_from_targets(
            next,
            main_display_id,
            windows_supported,
        ));
        i = i + 1;
    }
    assert(targets@.subrange(0, targets@.len() as int) =~= targets@);
    sources
}

} // verus!

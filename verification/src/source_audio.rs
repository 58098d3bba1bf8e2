//! Capture of the audio that a captured display or window plays, and the rules that decide
//! when it can run.
use vstd::prelude::*;
use vstd::string::*;

use crate::capture::{
    capability_of, parse_capture_video_source_id, spec_parse_source_id, CapabilityView,
    CaptureCapability, CapturePermissionState, CaptureVideoSource, CaptureVideoSourceKind,
    SourceAudioCaptureConfig, SourceAudioConfigView,
};
use crate::platform::PlatformBackend;
use crate::storage::clone_opt_string;
use crate::text::{parse_u32, parse_u32_spec};

verus! {

pub const MACOS_BACKEND_ID: &'static str = "macos_screencapturekit";

pub const WINDOWS_SYSTEM_LOOPBACK_BACKEND_ID: &'static str = "windows_wasapi_system_loopback";

pub const UNSUPPORTED_BACKEND_ID: &'static str = "unsupported";

pub const APPLICATION_SOURCE_AUDIO_ERROR: &'static str =
    "Application source audio is constrained by the current capture backend. Select a concrete window from that application instead.";

/// The source audio backend of a platform.
pub open spec fn spec_source_audio_backend_id(platform: PlatformBackend) -> Seq<char> {
    match platform {
        PlatformBackend::Macos => MACOS_BACKEND_ID@,
        PlatformBackend::Windows => WINDOWS_SYSTEM_LOOPBACK_BACKEND_ID@,
        _ => UNSUPPORTED_BACKEND_ID@,
    }
}

pub fn source_audio_backend_id(platform: PlatformBackend) -> (r: &'static str)
    ensures
        r@ == spec_source_audio_backend_id(platform),
{
    match platform {
        PlatformBackend::Macos => MACOS_BACKEND_ID,
        PlatformBackend::Windows => WINDOWS_SYSTEM_LOOPBACK_BACKEND_ID,
        _ => UNSUPPORTED_BACKEND_ID,
    }
}

/// Source audio is implemented on macOS and Windows.
pub open spec fn platform_source_audio_supported(platform: PlatformBackend) -> bool {
    platform == PlatformBackend::Macos || platform == PlatformBackend::Windows
}

pub open spec fn error_or(error: Option<Seq<char>>, fallback: Seq<char>) -> Seq<char> {
    match error {
        Some(e) => e,
        None => fallback,
    }
}

/// Whether source audio can be captured, given the screen capability, the platform and
/// whether the capture backend reports support on this machine.
pub open spec fn spec_source_audio_capability(
    screen: CapabilityView,
    platform: PlatformBackend,
    capture_supported: bool,
) -> CapabilityView {
    if !platform_source_audio_supported(platform) {
        capability_of(
            false,
            CapturePermissionState::Unavailable,
            Some("Source audio capture is only implemented for macOS and Windows."@),
        )
    } else if !capture_supported {
        capability_of(
            false,
            CapturePermissionState::Unavailable,
            Some("ScreenCaptureKit/WASAPI source audio is not supported here."@),
        )
    } else if !screen.supported {
        capability_of(
            false,
            CapturePermissionState::Unavailable,
            Some(error_or(screen.error, "Source audio requires screen capture support."@)),
        )
    } else {
        match screen.permission_state {
            CapturePermissionState::Granted => capability_of(
                true,
                CapturePermissionState::Granted,
                None,
            ),
            CapturePermissionState::PromptRequired => capability_of(
                true,
                CapturePermissionState::PromptRequired,
                Some("Source audio uses the selected screen/window capture permission."@),
            ),
            CapturePermissionState::Denied => capability_of(
                true,
                CapturePermissionState::Denied,
                Some(error_or(screen.error, "Source audio permission is denied with screen capture."@)),
            ),
            CapturePermissionState::Unavailable => capability_of(
                false,
                CapturePermissionState::Unavailable,
                Some(error_or(screen.error, "Source audio is unavailable with screen capture."@)),
            ),
            CapturePermissionState::Unknown => capability_of(
                true,
                CapturePermissionState::Unknown,
                None,
            ),
        }
    }
}

pub fn error_or_else(error: &Option<String>, fallback: &str) -> (r: String)
    ensures
        r@ == error_or(crate::storage::opt_view(*error), fallback@),
{
    match error {
        Some(e) => e.clone(),
        None => String::from_str(fallback),
    }
}

pub fn source_audio_capability(
    screen: &CaptureCapability,
    platform: PlatformBackend,
    capture_supported: bool,
) -> (r: CaptureCapability)
    ensures
        r@ == spec_source_audio_capability(screen@, platform, capture_supported),
{
    if !(platform == PlatformBackend::Macos || platform == PlatformBackend::Windows) {
        return CaptureCapability {
            supported: false,
            permission_state: CapturePermissionState::Unavailable,
            error: Some(
                String::from_str("Source audio capture is only implemented for macOS and Windows."),
            ),
        };
    }
    if !capture_supported {
        return CaptureCapability {
            supported: false,
            permission_state: CapturePermissionState::Unavailable,
            error: Some(
                String::from_str("ScreenCaptureKit/WASAPI source audio is not supported here."),
            ),
        };
    }
    if !screen.supported {
        return CaptureCapability {
            supported: false,
            permission_state: CapturePermissionState::Unavailable,
            error: Some(
                error_or_else(&screen.error, "Source audio requires screen capture support."),
            ),
        };
    }
    match screen.permission_state {
        CapturePermissionState::Granted => CaptureCapability {
            supported: true,
            permission_state: CapturePermissionState::Granted,
            error: None,
        },
        CapturePermissionState::PromptRequired => CaptureCapability {
            supported: true,
            permission_state: CapturePermissionState::PromptRequired,
            error: Some(
                String::from_str("Source audio uses the selected screen/window capture permission."),
            ),
        },
        CapturePermissionState::Denied => CaptureCapability {
            supported: true,
            permission_state: CapturePermissionState::Denied,
            error: Some(
                error_or_else(
                    &screen.error,
                    "Source audio permission is denied with screen capture.",
                ),
            ),
        },
        CapturePermissionState::Unavailable => CaptureCapability {
            supported: false,
            permission_state: CapturePermissionState::Unavailable,
            error: Some(
                error_or_else(&screen.error, "Source audio is unavailable with screen capture."),
            ),
        },
        CapturePermissionState::Unknown => CaptureCapability {
            supported: true,
            permission_state: CapturePermissionState::Unknown,
            error: None,
        },
    }
}

/// Source audio follows a display or a window; an application is refused.
pub open spec fn spec_validate_source_audio_target_kind(kind: CaptureVideoSourceKind) -> Result<
    (),
    Seq<char>,
> {
    match kind {
        CaptureVideoSourceKind::Application => Err(APPLICATION_SOURCE_AUDIO_ERROR@),
        _ => Ok(()),
    }
}

pub fn validate_source_audio_target_kind(kind: CaptureVideoSourceKind) -> (r: Result<(), String>)
    ensures
        match r {
            Ok(()) => spec_validate_source_audio_target_kind(kind) is Ok,
            Err(e) => spec_validate_source_audio_target_kind(kind) == Err::<(), Seq<char>>(e@),
        },
{
    match kind {
        CaptureVideoSourceKind::Display | CaptureVideoSourceKind::Window => Ok(()),
        CaptureVideoSourceKind::Application => Err(String::from_str(APPLICATION_SOURCE_AUDIO_ERROR)),
    }
}

/// The source audio configuration for a video source of `kind` with id `id`.
pub open spec fn spec_source_audio_config(
    kind: CaptureVideoSourceKind,
    id: Seq<char>,
    platform: PlatformBackend,
) -> Result<SourceAudioConfigView, Seq<char>> {
    match spec_validate_source_audio_target_kind(kind) {
        Err(e) => Err(e),
        Ok(()) => Ok(
            SourceAudioConfigView {
                source_id: id,
                backend: spec_source_audio_backend_id(platform),
                sample_rate: None,
                channels: None,
                sample_format: None,
            },
        ),
    }
}

pub open spec fn config_result_view(r: Result<SourceAudioCaptureConfig, String>) -> Result<
    SourceAudioConfigView,
    Seq<char>,
> {
    match r {
        Ok(c) => Ok(c@),
        Err(e) => Err(e@),
    }
}

pub fn source_audio_config(source: &CaptureVideoSource, platform: PlatformBackend) -> (r: Result<
    SourceAudioCaptureConfig,
    String,
>)
    ensures
        config_result_view(r) == spec_source_audio_config(source.kind, source.id@, platform),
{
    validate_source_audio_target_kind(source.kind)?;
    Ok(
        SourceAudioCaptureConfig {
            source_id: source.id.clone(),
            backend: String::from_str(source_audio_backend_id(platform)),
            sample_rate: None,
            channels: None,
            sample_format: None,
        },
    )
}

/// The platform-side source audio capture, seen by the rules that decide when it may run.
pub trait SourceAudioCaptureBackend {
    fn backend_id(&self) -> &'static str;

    fn capability(&self, screen: &CaptureCapability) -> CaptureCapability;

    fn capture_config(&self, source: &CaptureVideoSource) -> Result<
        SourceAudioCaptureConfig,
        String,
    >;
}

/// The backend that runs through the screen capture library: it is told the platform and
/// whether that library reports support on this machine.
pub struct ScapSourceAudioBackend {
    pub platform: PlatformBackend,
    pub capture_supported: bool,
}

impl SourceAudioCaptureBackend for ScapSourceAudioBackend {
    fn backend_id(&self) -> (r: &'static str)
        ensures
            r@ == spec_source_audio_backend_id(self.platform),
    {
        source_audio_backend_id(self.platform)
    }

    fn capability(&self, screen: &CaptureCapability) -> (r: CaptureCapability)
        ensures
            r@ == spec_source_audio_capability(screen@, self.platform, self.capture_supported),
    {
        source_audio_capability(screen, self.platform, self.capture_supported)
    }

    fn capture_config(&self, source: &CaptureVideoSource) -> (r: Result<
        SourceAudioCaptureConfig,
        String,
    >)
        ensures
            config_result_view(r) == spec_source_audio_config(
                source.kind,
                source.id@,
                self.platform,
            ),
    {
        source_audio_config(source, self.platform)
    }
}

/// A display or window as the source audio capture addresses it.
#[derive(Debug, Clone, Copy, PartialEq, Eq, Structural)]
pub struct SourceAudioTargetDescriptor {
    pub kind: CaptureVideoSourceKind,
    pub native_id: u32,
}

/// "Selected <kind> id is invalid."
pub open spec fn invalid_id_message(kind: CaptureVideoSourceKind) -> Seq<char> {
    "Selected "@ + kind.spec_label() + " id is invalid."@
}

/// A source id read as a source audio target: a display or window whose native id is a
/// `u32`.
pub open spec fn spec_parse_source_audio_target(s: Seq<char>) -> Result<
    SourceAudioTargetDescriptor,
    Seq<char>,
> {
    match spec_parse_source_id(s) {
        Err(e) => Err(e),
        Ok((kind, native)) => match spec_validate_source_audio_target_kind(kind) {
            Err(e) => Err(e),
            Ok(()) => match parse_u32_spec(native) {
                None => Err(invalid_id_message(kind)),
                Some(id) => Ok(SourceAudioTargetDescriptor { kind, native_id: id }),
            },
        },
    }
}

pub open spec fn descriptor_result_view(r: Result<SourceAudioTargetDescriptor, String>) -> Result<
    SourceAudioTargetDescriptor,
    Seq<char>,
> {
    match r {
        Ok(d) => Ok(d),
        Err(e) => Err(e@),
    }
}

pub fn parse_source_audio_target_descriptor(source_id: &str) -> (r: Result<
    SourceAudioTargetDescriptor,
    String,
>)
    ensures
        descriptor_result_view(r) == spec_parse_source_audio_target(source_id@),
{
    let parsed = parse_capture_video_source_id(source_id)?;
    validate_source_audio_target_kind(parsed.kind)?;
    match parse_u32(parsed.native_id.as_str()) {
        Some(native_id) => Ok(SourceAudioTargetDescriptor { kind: parsed.kind, native_id }),
        None => Err(
            String::from_str("Selected ").concat(parsed.kind.label()).concat(" id is invalid."),
        ),
    }
}

/// "The selected <kind> is no longer available for source audio."
pub open spec fn target_gone_message(kind: CaptureVideoSourceKind) -> Seq<char> {
    "The selected "@ + kind.spec_label() + " is no longer available for source audio."@
}

/// The position, among the targets the capture library lists, of the target that a source id
/// names: the first equal one.
pub fn selected_source_audio_target(
    source_id: &str,
    targets: &Vec<SourceAudioTargetDescriptor>,
) -> (r: Result<usize, String>)
    ensures
        match spec_parse_source_audio_target(source_id@) {
            Err(e) => r matches Err(m) && m@ == e,
            Ok(d) => match r {
                Ok(i) => i < targets@.len() && targets@[i as int] == d && forall|j: int|
                    0 <= j < i ==> targets@[j] != d,
                Err(m) => m@ == target_gone_message(d.kind) && forall|j: int|
                    0 <= j < targets@.len() ==> targets@[j] != d,
            },
        },
{
    let descriptor = match parse_source_audio_target_descriptor(source_id) {
        Ok(d) => d,
        Err(e) => {
            return Err(e);
        },
    };
    let mut i: usize = 0;
    while i < targets.len()
        invariant
            i <= targets@.len(),
            spec_parse_source_audio_target(source_id@) == Ok::<
                SourceAudioTargetDescriptor,
                Seq<char>,
            >(descriptor),
            forall|j: int| 0 <= j < i ==> targets@[j] != descriptor,
        decreases targets.len() - i,
    {
        let candidate = targets[i];
        if candidate.kind == descriptor.kind && candidate.native_id == descriptor.native_id {
            assert(targets@[i as int] == descriptor);
            return Ok(i);
        }
        i = i + 1;
    }
    Err(
        String::from_str("The selected ").concat(descriptor.kind.label()).concat(
            " is no longer available for source audio.",
        ),
    )
}

} // verus!

//! Which native media backend a build uses, and whether it can run here.
use vstd::prelude::*;
use vstd::string::*;

use crate::platform::PlatformBackend;
use crate::storage::opt_view;
use crate::text::string_views;

verus! {

/// Whether media processing can run, with what the user should do when it cannot.
#[derive(Debug, Clone, PartialEq, Eq)]
pub struct MediaBackendReadiness {
    pub backend: String,
    pub display_name: String,
    pub status: String,
    pub available: bool,
    pub retryable: bool,
    pub temporary_fallback: bool,
    pub user_action: Option<String>,
    pub missing_components: Vec<String>,
    pub messages: Vec<String>,
}

/// What the Linux GStreamer probe found.
#[derive(Debug, Clone, PartialEq, Eq)]
pub struct LinuxBackendReadiness {
    pub available: bool,
    pub missing_components: Vec<String>,
    pub messages: Vec<String>,
    pub install_hint: String,
}

/// The model of a readiness report: its texts as characters.
pub struct ReadinessView {
    pub backend: Seq<char>,
    pub display_name: Seq<char>,
    pub status: Seq<char>,
    pub available: bool,
    pub retryable: bool,
    pub temporary_fallback: bool,
    pub user_action: Option<Seq<char>>,
    pub missing_components: Seq<Seq<char>>,
    pub messages: Seq<Seq<char>>,
}

impl View for MediaBackendReadiness {
    type V = ReadinessView;

    open spec fn view(&self) -> ReadinessView {
        ReadinessView {
            backend: self.backend@,
            display_name: self.display_name@,
            status: self.status@,
            available: self.available,
            retryable: self.retryable,
            temporary_fallback: self.temporary_fallback,
            user_action: opt_view(self.user_action),
            missing_components: string_views(self.missing_components@),
            messages: string_views(self.messages@),
        }
    }
}

pub open spec fn native_ready_view(
    backend: Seq<char>,
    display_name: Seq<char>,
    status: Seq<char>,
    message: Seq<char>,
) -> ReadinessView {
    ReadinessView {
        backend,
        display_name,
        status,
        available: true,
        retryable: false,
        temporary_fallback: false,
        user_action: None,
        missing_components: Seq::empty(),
        messages: seq![message],
    }
}

pub fn native_ready(backend: &str, display_name: &str, status: &str, message: &str) -> (r:
    MediaBackendReadiness)
    ensures
        r@ == native_ready_view(backend@, display_name@, status@, message@),
{
    let mut messages: Vec<String> = Vec::new();
    messages.push(message.to_owned());
    let r = MediaBackendReadiness {
        backend: backend.to_owned(),
        display_name: display_name.to_owned(),
        status: status.to_owned(),
        available: true,
        retryable: false,
        temporary_fallback: false,
        user_action: None,
        missing_components: Vec::new(),
        messages,
    };
    assert(r@.missing_components =~= Seq::<Seq<char>>::empty());
    assert(r@.messages =~= seq![message@]);
    r
}

pub const GSTREAMER_INSTALL_HINT: &'static str =
    "Install GStreamer and the required H.264/AAC plugins, then retry.";

/// The Linux report: GStreamer ready or missing dependencies (then retryable, with the install
/// hint as the user's action). When the probe could not run, GStreamer is reported missing.
pub open spec fn spec_linux_readiness(linux: Option<LinuxBackendReadiness>) -> ReadinessView {
    let (available, missing, messages, hint) = match linux {
        Some(l) => (
            l.available,
            string_views(l.missing_components@),
            string_views(l.messages@),
            l.install_hint@,
        ),
        None => (
            false,
            seq!["gstreamer readiness"@],
            seq!["GStreamer readiness could not be evaluated."@],
            GSTREAMER_INSTALL_HINT@,
        ),
    };
    ReadinessView {
        backend: "linux-gstreamer"@,
        display_name: "GStreamer"@,
        status: if available {
            "selected-linux-gstreamer-ready"@
        } else {
            "selected-linux-gstreamer-missing-dependencies"@
        },
        available,
        retryable: !available,
        temporary_fallback: false,
        user_action: if available {
            None
        } else {
            Some(hint)
        },
        missing_components: missing,
        messages,
    }
}

pub fn linux_gstreamer_readiness(linux_readiness: Option<LinuxBackendReadiness>) -> (r:
    MediaBackendReadiness)
    ensures
        r@ == spec_linux_readiness(linux_readiness),
{
    let readiness = match linux_readiness {
        Some(l) => l,
        None => {
            let mut missing: Vec<String> = Vec::new();
            missing.push(String::from_str("gstreamer readiness"));
            let mut messages: Vec<String> = Vec::new();
            messages.push(String::from_str("GStreamer readiness could not be evaluated."));
            let l = LinuxBackendReadiness {
                available: false,
                missing_components: missing,
                messages,
                install_hint: String::from_str(GSTREAMER_INSTALL_HINT),
            };
            assert(string_views(l.missing_components@) =~= seq!["gstreamer readiness"@]);
            assert(string_views(l.messages@) =~= seq![
                "GStreamer readiness could not be evaluated."@,
            ]);
            l
        },
    };
    MediaBackendReadiness {
        backend: String::from_str("linux-gstreamer"),
        display_name: String::from_str("GStreamer"),
        status: if readiness.available {
            String::from_str("selected-linux-gstreamer-ready")
        } else {
            String::from_str("selected-linux-gstreamer-missing-dependencies")
        },
        available: readiness.available,
        retryable: !readiness.available,
        temporary_fallback: false,
        user_action: if readiness.available {
            None
        } else {
            Some(readiness.install_hint)
        },
        missing_components: readiness.missing_components,
        messages: readiness.messages,
    }
}

pub open spec fn spec_unsupported_readiness() -> ReadinessView {
    ReadinessView {
        backend: "unsupported"@,
        display_name: "Unsupported platform"@,
        status: "unsupported-target"@,
        available: false,
        retryable: false,
        temporary_fallback: false,
        user_action: Some(
            "Media processing is supported on macOS, Windows, and Linux for normal product builds."@,
        ),
        missing_components: Seq::empty(),
        messages: seq!["No native media backend is selected for this target."@],
    }
}

pub fn unsupported_readiness() -> (r: MediaBackendReadiness)
    ensures
        r@ == spec_unsupported_readiness(),
{
    let mut messages: Vec<String> = Vec::new();
    messages.push(String::from_str("No native media backend is selected for this target."));
    let r = MediaBackendReadiness {
        backend: String::from_str("unsupported"),
        display_name: String::from_str("Unsupported platform"),
        status: String::from_str("unsupported-target"),
        available: false,
        retryable: false,
        temporary_fallback: false,
        user_action: Some(
            String::from_str(
                "Media processing is supported on macOS, Windows, and Linux for normal product builds.",
            ),
        ),
        missing_components: Vec::new(),
        messages,
    };
    assert(r@.missing_components =~= Seq::<Seq<char>>::empty());
    assert(r@.messages =~= seq!["No native media backend is selected for this target."@]);
    r
}

/// The readiness of the backend a platform uses: AVFoundation on macOS and Media Foundation on
/// Windows (always ready), GStreamer on Linux (as probed), none elsewhere.
pub open spec fn spec_readiness_for_platform(
    platform: PlatformBackend,
    linux: Option<LinuxBackendReadiness>,
) -> ReadinessView {
    match platform {
        PlatformBackend::Macos => native_ready_view(
            "macos-avfoundation"@,
            "AVFoundation"@,
            "selected-macos-avfoundation-ready"@,
            "Selected AVFoundation for macOS media processing."@,
        ),
        PlatformBackend::Windows => native_ready_view(
            "windows-media-foundation"@,
            "Media Foundation"@,
            "selected-windows-media-foundation-ready"@,
            "Selected Media Foundation for Windows media processing."@,
        ),
        PlatformBackend::Linux => spec_linux_readiness(linux),
        PlatformBackend::Unsupported => spec_unsupported_readiness(),
    }
}

pub fn readiness_for_platform(
    platform: PlatformBackend,
    linux_readiness: Option<LinuxBackendReadiness>,
) -> (r: MediaBackendReadiness)
    ensures
        r@ == spec_readiness_for_platform(platform, linux_readiness),
{
    match platform {
        PlatformBackend::Macos => native_ready(
            "macos-avfoundation",
            "AVFoundation",
            "selected-macos-avfoundation-ready",
            "Selected AVFoundation for macOS media processing.",
        ),
        PlatformBackend::Windows => native_ready(
            "windows-media-foundation",
            "Media Foundation",
            "selected-windows-media-foundation-ready",
            "Selected Media Foundation for Windows media processing.",
        ),
        PlatformBackend::Linux => linux_gstreamer_readiness(linux_readiness),
        PlatformBackend::Unsupported => unsupported_readiness(),
    }
}

/// The readiness of this build's media backend, given its platform and (on Linux) what the
/// GStreamer probe found.
pub fn selected_media_backend_readiness(
    platform: PlatformBackend,
    linux_readiness: Option<LinuxBackendReadiness>,
) -> (r: MediaBackendReadiness)
    ensures
        r@ == spec_readiness_for_platform(platform, linux_readiness),
{
    readiness_for_platform(platform, linux_readiness)
}

} // verus!

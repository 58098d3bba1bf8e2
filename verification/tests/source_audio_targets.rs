use metafy::capture::{CaptureCapability, CapturePermissionState, CaptureVideoSourceKind};
use metafy::platform::PlatformBackend;
use metafy::source_audio::{
    parse_source_audio_target_descriptor, source_audio_capability, SourceAudioTargetDescriptor,
};

#[test]
fn rejects_application_source_audio_target() {
    let error = parse_source_audio_target_descriptor("application:com.metafy.app")
        .expect_err("application source audio is constrained");

    assert!(error.contains("Application source audio is constrained"));
}

#[test]
fn parses_display_and_window_source_audio_targets() {
    assert_eq!(
        parse_source_audio_target_descriptor("display:7").expect("display target"),
        SourceAudioTargetDescriptor {
            kind: CaptureVideoSourceKind::Display,
            native_id: 7,
        }
    );
    assert_eq!(
        parse_source_audio_target_descriptor("window:42").expect("window target"),
        SourceAudioTargetDescriptor {
            kind: CaptureVideoSourceKind::Window,
            native_id: 42,
        }
    );
}

#[test]
fn source_audio_is_unavailable_outside_macos_and_windows() {
    let screen = CaptureCapability {
        supported: true,
        permission_state: CapturePermissionState::Granted,
        error: None,
    };
    let capability = source_audio_capability(&screen, PlatformBackend::Linux, true);
    assert!(!capability.supported);
    assert_eq!(capability.permission_state, CapturePermissionState::Unavailable);
    assert_eq!(
        capability.error.as_deref(),
        Some("Source audio capture is only implemented for macOS and Windows.")
    );

    let granted = source_audio_capability(&screen, PlatformBackend::Windows, true);
    assert!(granted.supported);
    assert_eq!(granted.permission_state, CapturePermissionState::Granted);
    assert!(granted.error.is_none());
}

#[test]
fn source_audio_rejects_malformed_numeric_ids() {
    assert!(parse_source_audio_target_descriptor("window:abc").is_err());
    assert!(parse_source_audio_target_descriptor("display:").is_err());
}

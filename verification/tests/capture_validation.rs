use metafy::capture::{
    capture_status, parse_capture_video_source_id, request_capture_permissions, validate_status,
    CaptureCapability, CapturePermissionState, CaptureProbe, CaptureVideoSource,
    CaptureVideoSourceKind, MicrophoneDevice, MicrophoneProbeError, MicrophoneProbeErrorKind,
};
use metafy::platform::PlatformBackend;
use metafy::source_audio::source_audio_capability;
use metafy::storage::{CaptureAudioMode, CaptureSelection};

fn granted() -> CaptureCapability {
    CaptureCapability {
        supported: true,
        permission_state: CapturePermissionState::Granted,
        error: None,
    }
}

fn window_source() -> CaptureVideoSource {
    CaptureVideoSource {
        id: "window:42".to_owned(),
        kind: CaptureVideoSourceKind::Window,
        title: "Game window".to_owned(),
        app_name: None,
        process_id: None,
        window_id: Some(42),
        primary: false,
    }
}

fn display_source() -> CaptureVideoSource {
    CaptureVideoSource {
        id: "display:1".to_owned(),
        kind: CaptureVideoSourceKind::Display,
        title: "Display 1".to_owned(),
        app_name: None,
        process_id: None,
        window_id: None,
        primary: true,
    }
}

fn selection(source_id: &str, microphone: Option<&str>, mode: CaptureAudioMode) -> CaptureSelection {
    CaptureSelection {
        video_source_id: Some(source_id.to_owned()),
        screen_source_id: Some(source_id.to_owned()),
        microphone_device_id: microphone.map(str::to_owned),
        audio_mode: mode,
        include_microphone: mode.includes_microphone(),
        updated_at: None,
    }
}

#[test]
fn parses_prefixed_video_source_ids() {
    let display = parse_capture_video_source_id("display:1").expect("display source id");
    assert_eq!(display.kind, CaptureVideoSourceKind::Display);
    assert_eq!(display.native_id, "1");

    let application =
        parse_capture_video_source_id("application:com.metafy.app").expect("app source id");
    assert_eq!(application.kind, CaptureVideoSourceKind::Application);
    assert_eq!(application.native_id, "com.metafy.app");

    let window = parse_capture_video_source_id("window:42").expect("window source id");
    assert_eq!(window.kind, CaptureVideoSourceKind::Window);
    assert_eq!(window.native_id, "42");

    assert!(parse_capture_video_source_id("screen:1").is_err());
    assert!(parse_capture_video_source_id("display:").is_err());
    assert!(parse_capture_video_source_id("1").is_err());
}

#[test]
fn validation_accepts_selected_window_video_source() {
    let screen = granted();
    let microphone = CaptureCapability {
        supported: false,
        permission_state: CapturePermissionState::Unavailable,
        error: Some("No microphone input devices were found.".to_owned()),
    };
    let source_audio = source_audio_capability(&screen, PlatformBackend::Macos, true);
    let selection = selection("window:42", None, CaptureAudioMode::NoAudio);
    let sources = vec![window_source()];

    let (config, errors) = validate_status(
        &selection,
        &screen,
        &sources,
        &microphone,
        &Vec::new(),
        &source_audio,
        PlatformBackend::Macos,
    );

    assert!(errors.is_empty(), "unexpected validation errors: {errors:?}");
    let config = config.expect("validated window config");
    assert_eq!(config.video_source.kind, CaptureVideoSourceKind::Window);
    assert_eq!(config.video_source.window_id, Some(42));
}

#[test]
fn validation_reports_stale_selected_video_source() {
    let screen = granted();
    let microphone = CaptureCapability {
        supported: false,
        permission_state: CapturePermissionState::Unavailable,
        error: Some("No microphone input devices were found.".to_owned()),
    };
    let source_audio = source_audio_capability(&screen, PlatformBackend::Macos, true);
    let selection = selection("window:99", None, CaptureAudioMode::NoAudio);
    let sources = vec![display_source()];

    let (config, errors) = validate_status(
        &selection,
        &screen,
        &sources,
        &microphone,
        &Vec::new(),
        &source_audio,
        PlatformBackend::Macos,
    );

    assert!(config.is_none());
    assert!(errors
        .iter()
        .any(|error| error == "The selected window is no longer available."));
}

#[test]
fn validation_reports_unsupported_source_audio() {
    let screen = granted();
    let microphone = CaptureCapability {
        supported: false,
        permission_state: CapturePermissionState::Unavailable,
        error: None,
    };
    let source_audio = CaptureCapability {
        supported: false,
        permission_state: CapturePermissionState::Unavailable,
        error: Some("Source audio capture is unavailable.".to_owned()),
    };
    let selection = selection("display:1", None, CaptureAudioMode::Source);
    let sources = vec![display_source()];

    let (config, errors) = validate_status(
        &selection,
        &screen,
        &sources,
        &microphone,
        &Vec::new(),
        &source_audio,
        PlatformBackend::Macos,
    );

    assert!(config.is_none());
    assert!(errors
        .iter()
        .any(|error| error.contains("Source audio capture")));
}

#[test]
fn validation_builds_source_audio_config_without_microphone() {
    let screen = granted();
    let microphone = CaptureCapability {
        supported: false,
        permission_state: CapturePermissionState::Unavailable,
        error: None,
    };
    let source_audio = granted();
    let selection = selection("window:42", None, CaptureAudioMode::Source);
    let sources = vec![window_source()];

    let (config, errors) = validate_status(
        &selection,
        &screen,
        &sources,
        &microphone,
        &Vec::new(),
        &source_audio,
        PlatformBackend::Macos,
    );

    assert!(errors.is_empty(), "unexpected validation errors: {errors:?}");
    let config = config.expect("source audio config");
    assert!(config.audio.source_audio.is_some());
    assert!(!config.include_microphone);
    assert!(config.microphone.is_none());
}

#[test]
fn validation_accepts_combined_audio_with_split_storage() {
    let screen = granted();
    let microphone = granted();
    let source_audio = granted();
    let selection = selection("window:42", Some("mic:1"), CaptureAudioMode::MicrophoneAndSource);
    let sources = vec![window_source()];
    let microphones = vec![MicrophoneDevice {
        id: "mic:1".to_owned(),
        name: "Test mic".to_owned(),
        is_default: true,
        channels: Some(1),
        sample_rate: Some(48_000),
        error: None,
    }];

    let (config, errors) = validate_status(
        &selection,
        &screen,
        &sources,
        &microphone,
        &microphones,
        &source_audio,
        PlatformBackend::Macos,
    );

    let config = config.expect("combined audio config");

    assert!(errors.is_empty());
    assert!(config.include_microphone);
    assert!(config.microphone.is_some());
    assert!(config.audio.source_audio.is_some());
}

fn probe_with_denied_microphone_test() -> CaptureProbe {
    CaptureProbe {
        screen: granted(),
        listed_sources: Ok(vec![display_source()]),
        microphones: vec![MicrophoneDevice {
            id: "mic:1".to_owned(),
            name: "Mic".to_owned(),
            is_default: true,
            channels: Some(1),
            sample_rate: Some(48_000),
            error: None,
        }],
        microphone_error: None,
        microphone_probe: Some(Err(MicrophoneProbeError {
            kind: MicrophoneProbeErrorKind::PermissionDenied,
            message: "denied".to_owned(),
        })),
        platform: PlatformBackend::Macos,
        source_audio_supported: true,
    }
}

#[test]
fn status_without_requests_ignores_microphone_tests() {
    let shown = capture_status(
        selection("display:1", Some("mic:1"), CaptureAudioMode::Microphone),
        probe_with_denied_microphone_test(),
    );
    assert_eq!(shown.microphone.permission_state, CapturePermissionState::Unknown);
    assert!(shown.microphone.supported);
    assert_eq!(shown.displays.len(), 1);

    let requested = request_capture_permissions(
        selection("display:1", Some("mic:1"), CaptureAudioMode::Microphone),
        probe_with_denied_microphone_test(),
    );
    assert_eq!(requested.microphone.permission_state, CapturePermissionState::Denied);
}

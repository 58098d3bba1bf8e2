use metafy::media::readiness::{readiness_for_platform, LinuxBackendReadiness};
use metafy::platform::PlatformBackend;

#[test]
fn selects_macos_avfoundation_by_default() {
    let readiness = readiness_for_platform(PlatformBackend::Macos, None);

    assert_eq!(readiness.backend, "macos-avfoundation");
    assert_eq!(readiness.display_name, "AVFoundation");
    assert_eq!(readiness.status, "selected-macos-avfoundation-ready");
    assert!(readiness.available);
    assert!(!readiness.temporary_fallback);
    assert!(readiness.user_action.is_none());
}

#[test]
fn selects_windows_media_foundation_by_default() {
    let readiness = readiness_for_platform(PlatformBackend::Windows, None);

    assert_eq!(readiness.backend, "windows-media-foundation");
    assert_eq!(readiness.display_name, "Media Foundation");
    assert_eq!(readiness.status, "selected-windows-media-foundation-ready");
    assert!(readiness.available);
    assert!(!readiness.temporary_fallback);
    assert!(readiness.user_action.is_none());
}

#[test]
fn selects_linux_gstreamer_by_default() {
    let readiness = readiness_for_platform(
        PlatformBackend::Linux,
        Some(LinuxBackendReadiness {
            available: true,
            missing_components: Vec::new(),
            messages: vec![
                "GStreamer ready with video encoder x264enc and audio encoder voaacenc.".to_owned(),
            ],
            install_hint: "Install GStreamer plugins.".to_owned(),
        }),
    );

    assert_eq!(readiness.backend, "linux-gstreamer");
    assert_eq!(readiness.display_name, "GStreamer");
    assert_eq!(readiness.status, "selected-linux-gstreamer-ready");
    assert!(readiness.available);
    assert!(!readiness.temporary_fallback);
}

#[test]
fn reports_linux_gstreamer_missing_plugins_actionably() {
    let readiness = readiness_for_platform(
        PlatformBackend::Linux,
        Some(LinuxBackendReadiness {
            available: false,
            missing_components: vec!["x264enc".to_owned(), "voaacenc".to_owned()],
            messages: vec![
                "GStreamer is missing required encoder or muxing elements: x264enc, voaacenc."
                    .to_owned(),
            ],
            install_hint: "Install GStreamer plugins, then retry.".to_owned(),
        }),
    );

    assert_eq!(readiness.status, "selected-linux-gstreamer-missing-dependencies");
    assert!(!readiness.available);
    assert!(readiness.retryable);
    assert_eq!(readiness.missing_components, vec!["x264enc", "voaacenc"]);
    assert!(readiness
        .user_action
        .as_deref()
        .is_some_and(|action| action.contains("GStreamer")));
}

#[test]
fn unsupported_target_has_no_media_backend() {
    let readiness = readiness_for_platform(PlatformBackend::Unsupported, None);

    assert_eq!(readiness.backend, "unsupported");
    assert_eq!(readiness.status, "unsupported-target");
    assert!(!readiness.available);
    assert!(!readiness.retryable);
    assert!(!readiness.temporary_fallback);
    assert!(readiness
        .user_action
        .as_deref()
        .is_some_and(|action| action.contains("macOS, Windows, and Linux")));
    assert!(readiness
        .messages
        .iter()
        .any(|message| message.contains("No native media backend")));
}

#[test]
fn linux_without_probe_reports_readiness_unknown() {
    let readiness = readiness_for_platform(PlatformBackend::Linux, None);
    assert!(!readiness.available);
    assert_eq!(readiness.missing_components, vec!["gstreamer readiness"]);
}

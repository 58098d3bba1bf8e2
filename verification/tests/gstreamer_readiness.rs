use metafy::media::backends::linux::{
    audio_duration, audio_file_size, clock_time_for_frame, encoder_launch, expected_video_bytes,
    expected_video_frame_bytes, frame_duration, gst_launch_escape, gstreamer_init_failure,
    gstreamer_readiness, linux_backend_readiness, pipeline_description, readiness_error,
    scaled_time_nanos,
};
use metafy::media::encode::{EncodeAudioInput, EncodeVideoFormat, EncodeVideoInput};
use metafy::media::thumbnail::BgraFrame;
use metafy::media::readiness::readiness_for_platform;
use metafy::platform::PlatformBackend;

fn names(list: &[&str]) -> Vec<String> {
    list.iter().map(|name| (*name).to_owned()).collect()
}

const ALL_REQUIRED: [&str; 8] = [
    "appsrc",
    "videoconvert",
    "h264parse",
    "mp4mux",
    "filesink",
    "audioconvert",
    "audioresample",
    "aacparse",
];

#[test]
fn readiness_reports_missing_plugins_actionably() {
    let readiness = gstreamer_readiness(&names(&["appsrc", "mp4mux"]));

    assert!(readiness.install_hint.contains("GStreamer"));
    assert!(!readiness.available);
    assert!(!readiness.missing_elements.is_empty());
    assert!(readiness.messages.iter().any(|message| {
        message.contains("GStreamer") && message.contains("missing required encoder or muxing elements")
    }));
    assert_eq!(
        readiness.missing_elements,
        vec![
            "videoconvert",
            "h264parse",
            "filesink",
            "audioconvert",
            "audioresample",
            "aacparse",
            "one of: vah264enc, vaapih264enc, nvh264enc, x264enc, openh264enc, avenc_h264",
            "one of: fdkaacenc, voaacenc, avenc_aac",
        ]
    );
}

#[test]
fn readiness_selects_the_preferred_present_encoders() {
    let mut present = names(&ALL_REQUIRED);
    present.extend(names(&["x264enc", "openh264enc", "voaacenc", "avenc_aac"]));
    let readiness = gstreamer_readiness(&present);
    assert!(readiness.available);
    assert_eq!(readiness.selected_video_encoder, Some("x264enc"));
    assert_eq!(readiness.selected_audio_encoder, Some("voaacenc"));
    assert_eq!(
        readiness.messages,
        vec!["GStreamer ready with video encoder x264enc and audio encoder voaacenc."]
    );
    let media = readiness_for_platform(PlatformBackend::Linux, Some(linux_backend_readiness(readiness)));
    assert_eq!(media.status, "selected-linux-gstreamer-ready");
}

#[test]
fn unready_encoders_explain_themselves() {
    let failed = gstreamer_init_failure("no display");
    assert!(!failed.available);
    assert_eq!(failed.missing_elements, vec!["gstreamer runtime"]);
    let error = readiness_error(&failed);
    assert!(error.starts_with(
        "Linux GStreamer encoder is not ready. Unable to initialize GStreamer: no display Install required GStreamer plugins and retry. "
    ));
}

#[test]
fn pipeline_and_timing_follow_the_capture() {
    assert_eq!(gst_launch_escape("a\\b\"c"), "a\\\\b\\\"c");
    assert_eq!(
        encoder_launch("x264enc"),
        "x264enc speed-preset=veryfast tune=zerolatency key-int-max=60 bitrate=4000"
    );
    let video_only = pipeline_description("nvh264enc", None, "/out/a.mp4");
    assert_eq!(
        video_only,
        "mp4mux name=mux ! filesink name=output_sink location=\"/out/a.mp4\" appsrc name=video_src format=time is-live=false do-timestamp=false ! videoconvert ! video/x-raw,format=I420 ! nvh264enc ! h264parse ! queue ! mux."
    );
    let with_audio = pipeline_description("nvh264enc", Some("voaacenc"), "/out/a.mp4");
    assert!(with_audio.ends_with("! voaacenc ! aacparse ! queue ! mux."));
    assert_eq!(clock_time_for_frame(3, 30).unwrap(), 100_000_000);
    assert_eq!(frame_duration(0, 30).unwrap(), 33_333_333);
    assert_eq!(frame_duration(2, 30).unwrap(), 33_333_334);
    assert_eq!(audio_duration(48_000, 48_000).unwrap(), 1_000_000_000);
    assert!(clock_time_for_frame(-1, 30).is_err());
    assert!(scaled_time_nanos(i64::MAX, 1).is_err());
}

#[test]
fn prepared_media_sizes_are_checked() {
    let video = EncodeVideoInput {
        path: "/v".to_owned(),
        format: EncodeVideoFormat::RawBgra,
        width: 2,
        height: 2,
        frame_rate: 30,
        frame_count: 3,
        thumbnail_frame: BgraFrame { width: 2, height: 2, bytes: vec![0; 16] },
    };
    assert_eq!(expected_video_frame_bytes(&video).unwrap(), 16);
    assert_eq!(expected_video_bytes(&video, 48).unwrap(), 48);
    assert_eq!(
        expected_video_bytes(&video, 40).unwrap_err(),
        "Linux GStreamer encoder expected prepared video input to be 48 bytes, got 40."
    );
    let audio = EncodeAudioInput {
        path: "/a".to_owned(),
        sample_rate: 48_000,
        channels: 2,
        sample_format: "f32".to_owned(),
        duration_ms: None,
    };
    assert_eq!(audio_file_size(&audio, 64).unwrap(), 64);
    assert_eq!(
        audio_file_size(&audio, 63).unwrap_err(),
        "Linux GStreamer encoder expected prepared audio to be aligned to 8 bytes per frame, got 63 bytes."
    );
}

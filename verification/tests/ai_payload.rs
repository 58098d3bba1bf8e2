use metafy::ai::{
    build_summary_payload, completion_content, contains_likely_media_path, select_summary_text,
    strip_json_fence, summary_request_api_key, validate_transcript_only_payload,
    AiTranscriptSegmentPayload, JsonValue,
};
use metafy::storage::transcripts::Transcript;
use metafy::storage::{AiSettingsRecord, Recording, RecordingStatus, TranscriptStatus};

fn recording() -> Recording {
    Recording {
        id: "recording-1".to_owned(),
        title: "Review".to_owned(),
        status: RecordingStatus::Completed,
        recording_directory: "recordings/recording-1".to_owned(),
        media_path: Some("recordings/recording-1/recording.mp4".to_owned()),
        thumbnail_path: Some("recordings/recording-1/thumbnail.jpg".to_owned()),
        duration_ms: Some(60_000),
        captured_at: Some("2026-07-01T12:00:00Z".to_owned()),
        created_at: "2026-07-01T12:00:00Z".to_owned(),
        updated_at: "2026-07-01T12:01:00Z".to_owned(),
        completed_at: Some("2026-07-01T12:01:00Z".to_owned()),
        failure_message: None,
    }
}

fn transcript(status: TranscriptStatus, text: Option<&str>) -> Transcript {
    Transcript {
        id: "transcript-1".to_owned(),
        recording_id: "recording-1".to_owned(),
        status,
        language: Some("en".to_owned()),
        model_name: Some("small.en".to_owned()),
        raw_json_path: Some("recordings/recording-1/transcript.json".to_owned()),
        text: text.map(str::to_owned),
        created_at: "2026-07-01T12:00:00Z".to_owned(),
        updated_at: "2026-07-01T12:01:00Z".to_owned(),
        completed_at: Some("2026-07-01T12:01:00Z".to_owned()),
        failure_message: None,
    }
}

fn segments() -> Vec<AiTranscriptSegmentPayload> {
    vec![AiTranscriptSegmentPayload {
        index: 0,
        start_ms: 0,
        end_ms: 3_000,
        text: "We decided to update the onboarding flow.".to_owned(),
    }]
}

fn object(fields: Vec<(&str, JsonValue)>) -> JsonValue {
    JsonValue::Object(fields.into_iter().map(|(k, v)| (k.to_owned(), v)).collect())
}

#[test]
fn builds_payload_without_media_paths() {
    let payload = build_summary_payload(
        &recording(),
        &transcript(
            TranscriptStatus::Completed,
            Some("We decided to update the onboarding flow."),
        ),
        segments(),
        None,
    )
    .expect("payload");
    let serialized = format!("{payload:?}");

    assert!(!serialized.contains("recording.mp4"));
    assert!(!serialized.contains("thumbnail.jpg"));
    assert!(!serialized.contains("transcript.json"));
    assert!(serialized.contains("onboarding flow"));
    assert_eq!(payload.recording.status, "completed");
    assert_eq!(
        payload.requested_outputs,
        vec!["summary", "action_items", "decisions", "questions", "risks", "chapters"]
    );
}

#[test]
fn payload_requires_completed_transcript_with_text() {
    assert_eq!(
        build_summary_payload(&recording(), &transcript(TranscriptStatus::Processing, Some("x")), segments(), None)
            .unwrap_err(),
        "AI summaries require a completed transcript."
    );
    assert_eq!(
        build_summary_payload(&recording(), &transcript(TranscriptStatus::Completed, Some("   ")), segments(), None)
            .unwrap_err(),
        "AI summaries require transcript text."
    );
    let joined = build_summary_payload(
        &recording(),
        &transcript(TranscriptStatus::Completed, None),
        segments(),
        Some("  focus on rotations  ".to_owned()),
    )
    .expect("joined text");
    assert_eq!(joined.transcript.text, "We decided to update the onboarding flow.");
    assert_eq!(joined.user_notes.as_deref(), Some("focus on rotations"));
    assert!(build_summary_payload(&recording(), &transcript(TranscriptStatus::Completed, None), Vec::new(), None).is_err());
}

#[test]
fn guardrail_rejects_media_fields_and_paths() {
    let field_payload = object(vec![(
        "recording",
        object(vec![(
            "mediaPath",
            JsonValue::Text("recordings/1/recording.mp4".to_owned()),
        )]),
    )]);
    assert_eq!(
        validate_transcript_only_payload(&field_payload).unwrap_err(),
        "AI payload guardrail rejected forbidden field `mediaPath` at $.recording."
    );

    let path_payload = object(vec![(
        "recording",
        object(vec![(
            "title",
            JsonValue::Text("/Users/andrew/recording.mp4".to_owned()),
        )]),
    )]);
    assert_eq!(
        validate_transcript_only_payload(&path_payload).unwrap_err(),
        "AI payload guardrail rejected a likely media path at $.recording.title."
    );
}

#[test]
fn guardrail_accepts_transcript_only_payloads_and_locates_array_items() {
    let clean = object(vec![
        ("title", JsonValue::Text("Review".to_owned())),
        ("durationMs", JsonValue::Number("60000".to_owned())),
        ("notes", JsonValue::Null),
        ("flag", JsonValue::Bool(true)),
        (
            "segments",
            JsonValue::Array(vec![JsonValue::Text("We decided things.".to_owned())]),
        ),
    ]);
    assert!(validate_transcript_only_payload(&clean).is_ok());

    let nested = object(vec![(
        "segments",
        JsonValue::Array(vec![
            JsonValue::Text("fine".to_owned()),
            JsonValue::Text("C:\\capture\\clip.MOV".to_owned()),
        ]),
    )]);
    assert_eq!(
        validate_transcript_only_payload(&nested).unwrap_err(),
        "AI payload guardrail rejected a likely media path at $.segments[1]."
    );
}

#[test]
fn recognizes_likely_media_paths() {
    assert!(contains_likely_media_path("  /tmp/x "));
    assert!(contains_likely_media_path("see Recordings/abc"));
    assert!(contains_likely_media_path("temp\\recording-sessions\\1"));
    assert!(contains_likely_media_path("clip.WAV"));
    assert!(!contains_likely_media_path("We decided to update the onboarding flow."));
}

#[test]
fn request_settings_are_checked_before_sending() {
    let mut settings = AiSettingsRecord {
        enabled: false,
        provider: "openai_compatible".to_owned(),
        model_name: "summary-model".to_owned(),
        endpoint_url: "https://example.invalid/v1".to_owned(),
        api_key: Some("local-test-key".to_owned()),
        updated_at: None,
    };
    assert_eq!(summary_request_api_key(&settings).unwrap_err(), "Optional AI is disabled.");
    settings.enabled = true;
    assert_eq!(summary_request_api_key(&settings).unwrap(), "local-test-key");
    settings.api_key = Some("  ".to_owned());
    assert_eq!(
        summary_request_api_key(&settings).unwrap_err(),
        "Optional AI requires a configured API key."
    );
    settings.model_name = " ".to_owned();
    assert_eq!(
        summary_request_api_key(&settings).unwrap_err(),
        "Optional AI requires a configured model name."
    );
    settings.provider = "other".to_owned();
    assert_eq!(
        summary_request_api_key(&settings).unwrap_err(),
        "Only OpenAI-compatible AI providers are supported."
    );
}

#[test]
fn summary_content_is_unfenced_and_selected() {
    let content = completion_content(&vec!["  ```json\n{\"summary\": \"Short summary.\"}\n```  ".to_owned()])
        .expect("content");
    assert_eq!(strip_json_fence(&content), "{\"summary\": \"Short summary.\"}");
    assert_eq!(strip_json_fence("```\n[]\n```"), "[]");
    assert_eq!(strip_json_fence(" {} "), "{}");
    assert_eq!(
        select_summary_text(Some("Short summary.".to_owned()), None).unwrap(),
        "Short summary."
    );
    assert_eq!(
        select_summary_text(None, Some("Fallback.".to_owned())).unwrap(),
        "Fallback."
    );
    assert!(select_summary_text(Some(" ".to_owned()), Some("ignored".to_owned())).is_err());
    assert!(completion_content(&Vec::new()).is_err());
}

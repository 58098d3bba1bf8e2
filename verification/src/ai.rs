//! Optional AI summaries: the transcript-only payload sent to the provider, the guardrail that
//! refuses anything that names a media file, and what is kept of the provider's answer.
use vstd::prelude::*;
use vstd::string::*;

use crate::storage::transcripts::Transcript;
use crate::storage::{AiSettingsRecord, Recording, RecordingStatus, TranscriptStatus};
use crate::text::{
    ascii_lower_seq, chars_contain, chars_start_with, lower_ascii_replacing, replace_char_seq,
    seq_contains, seq_starts_with, string_views, trim, trimmed, u64_to_decimal, decimal,
};
use crate::transcription::{joined_segment_text, opt_string_view, spec_joined_segment_text};

verus! {

/// What the recording contributes to a summary request.
#[derive(Debug, Clone, PartialEq, Eq)]
pub struct AiRecordingMetadata {
    pub id: String,
    pub title: String,
    pub status: String,
    pub captured_at: Option<String>,
    pub duration_ms: Option<i64>,
    pub completed_at: Option<String>,
}

/// One transcript segment as sent for a summary.
#[derive(Debug, Clone, PartialEq, Eq)]
pub struct AiTranscriptSegmentPayload {
    pub index: i64,
    pub start_ms: i64,
    pub end_ms: i64,
    pub text: String,
}

/// The transcript as sent for a summary.
#[derive(Debug, Clone, PartialEq, Eq)]
pub struct AiTranscriptPayload {
    pub id: String,
    pub language: Option<String>,
    pub model_name: Option<String>,
    pub text: String,
    pub segments: Vec<AiTranscriptSegmentPayload>,
}

/// Everything a summary request sends: recording metadata, the transcript, the user's notes
/// and the outputs asked for.
#[derive(Debug, Clone, PartialEq, Eq)]
pub struct AiPromptPayload {
    pub recording: AiRecordingMetadata,
    pub transcript: AiTranscriptPayload,
    pub user_notes: Option<String>,
    pub requested_outputs: Vec<&'static str>,
}

/// What is kept of a provider's summary.
#[derive(Debug, Clone, PartialEq, Eq)]
pub struct AiSummaryOutput {
    pub summary_text: String,
    pub action_items_json: String,
    pub decisions_json: String,
    pub questions_json: String,
    pub risks_json: String,
    pub chapters_json: String,
}

/// A JSON document as the guardrail reads it; numbers are kept as their text.
#[derive(Debug)]
pub enum JsonValue {
    Null,
    Bool(bool),
    Number(String),
    Text(String),
    Array(Vec<JsonValue>),
    Object(Vec<(String, JsonValue)>),
}

/// Parts of a field name that mark it as carrying file locations or media.
pub open spec fn forbidden_key_fragments() -> Seq<Seq<char>> {
    seq!["path"@, "directory"@, "media"@, "audio"@, "video"@, "thumbnail"@, "raw_json"@]
}

/// Text that marks a string as naming a media or capture file.
pub open spec fn media_path_markers() -> Seq<Seq<char>> {
    seq![
        ".mp4"@,
        ".mov"@,
        ".mkv"@,
        ".webm"@,
        ".avi"@,
        ".mfrv"@,
        ".pcm"@,
        ".wav"@,
        ".mp3"@,
        ".m4a"@,
        ".flac"@,
        ".jpg"@,
        ".jpeg"@,
        ".png"@,
        ".webp"@,
        "temp/recording-sessions/"@,
    ]
}

/// A field name is forbidden when its ASCII lower-case form contains a forbidden fragment.
pub open spec fn spec_forbidden_key(key: Seq<char>) -> bool {
    exists|k: int|
        0 <= k < forbidden_key_fragments().len() && seq_contains(
            ascii_lower_seq(key),
            #[trigger] forbidden_key_fragments()[k],
        )
}

/// The form a string is checked in: trimmed, ASCII lower-case, `\` turned into `/`.
pub open spec fn normalized_for_paths(value: Seq<char>) -> Seq<char> {
    replace_char_seq(ascii_lower_seq(trimmed(value)), '\\', '/')
}

/// A string looks like a media path when, normalized, it starts in a user, `/var` or `/tmp`
/// directory, holds a drive (`:/`) or a `recordings/` directory, or holds a media marker.
pub open spec fn spec_likely_media_path(value: Seq<char>) -> bool {
    let n = normalized_for_paths(value);
    seq_starts_with(n, "/users/"@) || seq_starts_with(n, "/var/"@) || seq_starts_with(
        n,
        "/tmp/"@,
    ) || seq_contains(n, ":/"@) || seq_contains(n, "recordings/"@) || exists|k: int|
        0 <= k < media_path_markers().len() && seq_contains(n, #[trigger] media_path_markers()[k])
}

pub fn contains_likely_media_path(value: &str) -> (r: bool)
    ensures
        r == spec_likely_media_path(value@),
{
    let normalized = lower_ascii_replacing(trim(value), '\\', '/');
    let ghost n = normalized@;
    assert(n == normalized_for_paths(value@));
    if chars_start_with(&normalized, "/users/") || chars_start_with(&normalized, "/var/")
        || chars_start_with(&normalized, "/tmp/") || chars_contain(&normalized, ":/")
        || chars_contain(&normalized, "recordings/") {
        return true;
    }
    let markers: [&str; 16] = [
        ".mp4",
        ".mov",
        ".mkv",
        ".webm",
        ".avi",
        ".mfrv",
        ".pcm",
        ".wav",
        ".mp3",
        ".m4a",
        ".flac",
        ".jpg",
        ".jpeg",
        ".png",
        ".webp",
        "temp/recording-sessions/",
    ];
    assert(forall|k: int| 0 <= k < 16 ==> #[trigger] markers@[k]@ == media_path_markers()[k]);
    let mut k: usize = 0;
    while k < 16
        invariant
            k <= 16,
            n == normalized@,
            n == normalized_for_paths(value@),
            forall|j: int| 0 <= j < 16 ==> #[trigger] markers@[j]@ == media_path_markers()[j],
            forall|j: int| 0 <= j < k ==> !seq_contains(n, #[trigger] media_path_markers()[j]),
        decreases 16 - k,
    {
        let marker = markers[k];
        assert(marker@ == media_path_markers()[k as int]);
        if chars_contain(&normalized, marker) {
            assert(seq_contains(n, media_path_markers()[k as int]));
            assert(0 <= k < media_path_markers().len());
            return true;
        }
        k = k + 1;
    }
    false
}

fn forbidden_key(key: &str) -> (r: bool)
    ensures
        r == spec_forbidden_key(key@),
{
    let lowered = lower_ascii_replacing(key, 'A', 'a');
    assert(lowered@ =~= ascii_lower_seq(key@)) by {
        assert forall|i: int| 0 <= i < key@.len() implies lowered@[i] == ascii_lower_seq(
            key@,
        )[i] by {
            let c = key@[i];
            assert(crate::text::ascii_lower(c) != 'A');
        }
    }
    let fragments: [&str; 7] = [
        "path",
        "directory",
        "media",
        "audio",
        "video",
        "thumbnail",
        "raw_json",
    ];
    assert(forall|k: int| 0 <= k < 7 ==> #[trigger] fragments@[k]@ == forbidden_key_fragments()[k]);
    let mut k: usize = 0;
    while k < 7
        invariant
            k <= 7,
            lowered@ == ascii_lower_seq(key@),
            forall|j: int| 0 <= j < 7 ==> #[trigger] fragments@[j]@ == forbidden_key_fragments()[j],
            forall|j: int|
                0 <= j < k ==> !seq_contains(
                    ascii_lower_seq(key@),
                    #[trigger] forbidden_key_fragments()[j],
                ),
        decreases 7 - k,
    {
        let fragment = fragments[k];
        assert(fragment@ == forbidden_key_fragments()[k as int]);
        if chars_contain(&lowered, fragment) {
            assert(0 <= k < forbidden_key_fragments().len());
            return true;
        }
        k = k + 1;
    }
    false
}

pub open spec fn forbidden_field_message(key: Seq<char>, location: Seq<char>) -> Seq<char> {
    "AI payload guardrail rejected forbidden field `"@ + key + "` at "@ + location + "."@
}

pub open spec fn media_path_message(location: Seq<char>) -> Seq<char> {
    "AI payload guardrail rejected a likely media path at "@ + location + "."@
}

/// The guardrail's verdict on `value` found at `location`: the first forbidden field name,
/// or string that looks like a media path, met going through objects in field order and
/// arrays in item order; each field checked by name before its value.
pub open spec fn spec_validate_value(value: JsonValue, location: Seq<char>) -> Result<
    (),
    Seq<char>,
>
    decreases value, 0int,
{
    match value {
        JsonValue::Object(fields) => spec_validate_fields(fields@, 0, location),
        JsonValue::Array(items) => spec_validate_items(items@, 0, location),
        JsonValue::Text(text) => if spec_likely_media_path(text@) {
            Err(media_path_message(location))
        } else {
            Ok(())
        },
        _ => Ok(()),
    }
}

/// The verdict on the items of an array from position `i` on.
pub open spec fn spec_validate_items(items: Seq<JsonValue>, i: int, location: Seq<char>) -> Result<
    (),
    Seq<char>,
>
    decreases items, items.len() - i,
{
    if i < 0 || i >= items.len() {
        Ok(())
    } else {
        match spec_validate_value(items[i], location + "["@ + decimal(i as nat) + "]"@) {
            Err(e) => Err(e),
            Ok(()) => spec_validate_items(items, i + 1, location),
        }
    }
}

/// The verdict on the fields of an object from position `i` on.
pub open spec fn spec_validate_fields(
    fields: Seq<(String, JsonValue)>,
    i: int,
    location: Seq<char>,
) -> Result<(), Seq<char>>
    decreases fields, fields.len() - i,
{
    if i < 0 || i >= fields.len() {
        Ok(())
    } else if spec_forbidden_key(fields[i].0@) {
        Err(forbidden_field_message(fields[i].0@, location))
    } else {
        match spec_validate_value(fields[i].1, location + "."@ + fields[i].0@) {
            Err(e) => Err(e),
            Ok(()) => spec_validate_fields(fields, i + 1, location),
        }
    }
}

pub open spec fn unit_result_view(r: Result<(), String>) -> Result<(), Seq<char>> {
    match r {
        Ok(()) => Ok(()),
        Err(e) => Err(e@),
    }
}

/// The guardrail's verdict on `value` found at `location`.
pub fn validate_value(value: &JsonValue, location: &str) -> (r: Result<(), String>)
    ensures
        unit_result_view(r) == spec_validate_value(*value, location@),
    decreases *value,
{
    match value {
        JsonValue::Object(fields) => {
            let mut i: usize = 0;
            while i < fields.len()
                invariant
                    i <= fields@.len(),
                    *value == JsonValue::Object(*fields),
                    spec_validate_value(*value, location@) == spec_validate_fields(
                        fields@,
                        i as int,
                        location@,
                    ),
                decreases fields@.len() - i,
            {
                let key = fields[i].0.as_str();
                if forbidden_key(key) {
                    let message = String::from_str("AI payload guardrail rejected forbidden field `")
                        .concat(key).concat("` at ").concat(location).concat(".");
                    return Err(message);
                }
                let child = String::from_str(location).concat(".").concat(key);
                proof {
                    assert(decreases_to!(*value => fields@[i as int].1)) by {
                        assert(decreases_to!(*value => *fields));
                        assert(decreases_to!(*fields => fields@));
                        assert(decreases_to!(fields@ => fields@[i as int]));
                        assert(decreases_to!(fields@[i as int] => fields@[i as int].1));
                    }
                }
                match validate_value(&fields[i].1, child.as_str()) {
                    Err(e) => return Err(e),
                    Ok(()) => {},
                }
                i = i + 1;
            }
            Ok(())
        },
        JsonValue::Array(items) => {
            let mut i: usize = 0;
            while i < items.len()
                invariant
                    i <= items@.len(),
                    *value == JsonValue::Array(*items),
                    spec_validate_value(*value, location@) == spec_validate_items(
                        items@,
                        i as int,
                        location@,
                    ),
                decreases items@.len() - i,
            {
                let child = String::from_str(location).concat("[").concat(
                    u64_to_decimal(i as u64).as_str(),
                ).concat("]");
                proof {
                    assert(decreases_to!(*value => items@[i as int])) by {
                        assert(decreases_to!(*value => *items));
                        assert(decreases_to!(*items => items@));
                        assert(decreases_to!(items@ => items@[i as int]));
                    }
                }
                match validate_value(&items[i], child.as_str()) {
                    Err(e) => return Err(e),
                    Ok(()) => {},
                }
                i = i + 1;
            }
            Ok(())
        },
        JsonValue::Text(text) => {
            if contains_likely_media_path(text.as_str()) {
                Err(
                    String::from_str("AI payload guardrail rejected a likely media path at ").concat(
                        location,
                    ).concat("."),
                )
            } else {
                Ok(())
            }
        },
        _ => Ok(()),
    }
}

/// The guardrail applied to a whole request document, rooted at `$`.
pub fn validate_transcript_only_payload(value: &JsonValue) -> (r: Result<(), String>)
    ensures
        unit_result_view(r) == spec_validate_value(*value, "$"@),
{
    validate_value(value, "$")
}

/// The outputs every summary request asks for.
pub open spec fn spec_requested_outputs() -> Seq<Seq<char>> {
    seq!["summary"@, "action_items"@, "decisions"@, "questions"@, "risks"@, "chapters"@]
}

pub fn requested_outputs() -> (r: Vec<&'static str>)
    ensures
        r@.len() == 6,
        forall|k: int| 0 <= k < 6 ==> #[trigger] r@[k]@ == spec_requested_outputs()[k],
{
    let mut r: Vec<&'static str> = Vec::new();
    r.push("summary");
    r.push("action_items");
    r.push("decisions");
    r.push("questions");
    r.push("risks");
    r.push("chapters");
    r
}

pub const TRANSCRIPT_NOT_COMPLETED_ERROR: &'static str =
    "AI summaries require a completed transcript.";

pub const TRANSCRIPT_TEXT_REQUIRED_ERROR: &'static str = "AI summaries require transcript text.";

pub open spec fn segment_texts(segments: Seq<AiTranscriptSegmentPayload>) -> Seq<Seq<char>> {
    segments.map_values(|s: AiTranscriptSegmentPayload| s.text@)
}

/// The text a summary is made from: the transcript's own text, else its segments' texts
/// joined.
pub open spec fn spec_transcript_text(
    text: Option<Seq<char>>,
    segments: Seq<AiTranscriptSegmentPayload>,
) -> Option<Seq<char>> {
    match text {
        Some(t) => Some(t),
        None => spec_joined_segment_text(segment_texts(segments)),
    }
}

/// The notes a request carries: trimmed, and none when blank.
pub open spec fn spec_user_notes(notes: Option<Seq<char>>) -> Option<Seq<char>> {
    match notes {
        Some(n) => if trimmed(n).len() > 0 {
            Some(trimmed(n))
        } else {
            None
        },
        None => None,
    }
}

/// The payload of a summary request for a recording and its transcript: refused unless the
/// transcript is completed and has non-blank text. It carries the recording's id, title,
/// status, capture and completion times and duration, the transcript's id, language, model,
/// text and segments, the trimmed notes, and the requested outputs; no file location.
pub fn build_summary_payload(
    recording: &Recording,
    transcript: &Transcript,
    segments: Vec<AiTranscriptSegmentPayload>,
    user_notes: Option<String>,
) -> (r: Result<AiPromptPayload, String>)
    ensures
        transcript.status != TranscriptStatus::Completed ==> (r matches Err(e) && e@
            == TRANSCRIPT_NOT_COMPLETED_ERROR@),
        transcript.status == TranscriptStatus::Completed ==> match spec_transcript_text(
            opt_string_view(transcript.text),
            segments@,
        ) {
            Some(t) => if trimmed(t).len() > 0 {
                r matches Ok(payload) && {
                    &&& payload.recording.id == recording.id
                    &&& payload.recording.title == recording.title
                    &&& payload.recording.status@ == recording.status.spec_str()
                    &&& payload.recording.captured_at == recording.captured_at
                    &&& payload.recording.duration_ms == recording.duration_ms
                    &&& payload.recording.completed_at == recording.completed_at
                    &&& payload.transcript.id == transcript.id
                    &&& payload.transcript.language == transcript.language
                    &&& payload.transcript.model_name == transcript.model_name
                    &&& payload.transcript.text@ == t
                    &&& payload.transcript.segments@ == segments@
                    &&& opt_string_view(payload.user_notes) == spec_user_notes(
                        opt_string_view(user_notes),
                    )
                    &&& payload.requested_outputs@.len() == 6
                    &&& forall|k: int|
                        0 <= k < 6 ==> #[trigger] payload.requested_outputs@[k]@
                            == spec_requested_outputs()[k]
                }
            } else {
                r matches Err(e) && e@ == TRANSCRIPT_TEXT_REQUIRED_ERROR@
            },
            None => r matches Err(e) && e@ == TRANSCRIPT_TEXT_REQUIRED_ERROR@,
        },
{
    if transcript.status != TranscriptStatus::Completed {
        return Err(String::from_str(TRANSCRIPT_NOT_COMPLETED_ERROR));
    }
    let text = match &transcript.text {
        Some(t) => Some(t.clone()),
        None => {
            let mut texts: Vec<String> = Vec::new();
            let mut i: usize = 0;
            while i < segments.len()
                invariant
                    i <= segments@.len(),
                    string_views(texts@) == segment_texts(segments@).subrange(0, i as int),
                decreases segments@.len() - i,
            {
                let ghost before = texts@;
                let t = segments[i].text.clone();
                assert(t@ == segments@[i as int].text@);
                texts.push(t);
                assert(string_views(texts@) =~= string_views(before).push(t@));
                assert(segment_texts(segments@).subrange(0, i + 1) =~= segment_texts(
                    segments@,
                ).subrange(0, i as int).push(t@));
                i = i + 1;
            }
            assert(segment_texts(segments@).subrange(0, segments@.len() as int) =~= segment_texts(
                segments@,
            ));
            joined_segment_text(&texts)
        },
    };
    let text = match text {
        Some(t) => {
            if trim(t.as_str()).unicode_len() == 0 {
                return Err(String::from_str(TRANSCRIPT_TEXT_REQUIRED_ERROR));
            }
            t
        },
        None => return Err(String::from_str(TRANSCRIPT_TEXT_REQUIRED_ERROR)),
    };
    let notes = match user_notes {
        Some(n) => {
            let t = trim(n.as_str());
            if t.unicode_len() > 0 {
                Some(t.to_owned())
            } else {
                None
            }
        },
        None => None,
    };
    Ok(
        AiPromptPayload {
            recording: AiRecordingMetadata {
                id: recording.id.clone(),
                title: recording.title.clone(),
                status: recording.status.as_str().to_owned(),
                captured_at: crate::storage::clone_opt_string(&recording.captured_at),
                duration_ms: recording.duration_ms,
                completed_at: crate::storage::clone_opt_string(&recording.completed_at),
            },
            transcript: AiTranscriptPayload {
                id: transcript.id.clone(),
                language: crate::storage::clone_opt_string(&transcript.language),
                model_name: crate::storage::clone_opt_string(&transcript.model_name),
                text,
                segments,
            },
            user_notes: notes,
            requested_outputs: requested_outputs(),
        },
    )
}

pub const AI_DISABLED_ERROR: &'static str = "Optional AI is disabled.";

pub const PROVIDER_ERROR: &'static str = "Only OpenAI-compatible AI providers are supported.";

pub const MODEL_REQUIRED_ERROR: &'static str = "Optional AI requires a configured model name.";

pub const API_KEY_REQUIRED_ERROR: &'static str = "Optional AI requires a configured API key.";

/// Why settings cannot be used for a summary request, checked in this order; none when they
/// can.
pub open spec fn spec_request_settings_error(settings: AiSettingsRecord) -> Option<Seq<char>> {
    if !settings.enabled {
        Some(AI_DISABLED_ERROR@)
    } else if settings.provider@ != "openai_compatible"@ {
        Some(PROVIDER_ERROR@)
    } else if trimmed(settings.model_name@).len() == 0 {
        Some(MODEL_REQUIRED_ERROR@)
    } else if match settings.api_key {
        Some(key) => trimmed(key@).len() == 0,
        None => true,
    } {
        Some(API_KEY_REQUIRED_ERROR@)
    } else {
        None
    }
}

/// The API key a summary request is sent with, once the settings are checked.
pub fn summary_request_api_key(settings: &AiSettingsRecord) -> (r: Result<String, String>)
    ensures
        match r {
            Ok(key) => spec_request_settings_error(*settings) is None && settings.api_key
                == Some(key),
            Err(e) => spec_request_settings_error(*settings) == Some(e@),
        },
{
    if !settings.enabled {
        return Err(String::from_str(AI_DISABLED_ERROR));
    }
    if !crate::text::str_equals(settings.provider.as_str(), "openai_compatible") {
        return Err(String::from_str(PROVIDER_ERROR));
    }
    if trim(settings.model_name.as_str()).unicode_len() == 0 {
        return Err(String::from_str(MODEL_REQUIRED_ERROR));
    }
    match &settings.api_key {
        Some(key) => {
            if trim(key.as_str()).unicode_len() == 0 {
                Err(String::from_str(API_KEY_REQUIRED_ERROR))
            } else {
                Ok(key.clone())
            }
        },
        None => Err(String::from_str(API_KEY_REQUIRED_ERROR)),
    }
}

pub const NO_CONTENT_ERROR: &'static str = "AI provider response did not include message content.";

/// The content of a provider's answer: the first choice's message, trimmed; refused when
/// there is no choice or its message is blank.
pub fn completion_content(contents: &Vec<String>) -> (r: Result<String, String>)
    ensures
        match r {
            Ok(content) => contents@.len() > 0 && content@ == trimmed(contents@[0]@)
                && content@.len() > 0,
            Err(e) => e@ == NO_CONTENT_ERROR@ && (contents@.len() == 0 || trimmed(
                contents@[0]@,
            ).len() == 0),
        },
{
    if contents.len() == 0 {
        return Err(String::from_str(NO_CONTENT_ERROR));
    }
    let content = trim(contents[0].as_str());
    if content.unicode_len() == 0 {
        return Err(String::from_str(NO_CONTENT_ERROR));
    }
    Ok(content.to_owned())
}

/// `s` without `prefix` when it starts with it.
pub open spec fn strip_or_keep(s: Seq<char>, prefix: Seq<char>) -> Option<Seq<char>> {
    if seq_starts_with(s, prefix) {
        Some(s.subrange(prefix.len() as int, s.len() as int))
    } else {
        None
    }
}

/// A provider's answer without a Markdown code fence: trimmed, a leading ```json or ```
/// removed, trimmed, a trailing ``` removed, trimmed.
pub open spec fn spec_strip_json_fence(content: Seq<char>) -> Seq<char> {
    let t = trimmed(content);
    let without_start = trimmed(
        match strip_or_keep(t, "```json"@) {
            Some(rest) => rest,
            None => match strip_or_keep(t, "```"@) {
                Some(rest) => rest,
                None => t,
            },
        },
    );
    trimmed(
        if crate::text::seq_ends_with(without_start, "```"@) {
            without_start.subrange(0, without_start.len() - "```"@.len())
        } else {
            without_start
        },
    )
}

pub fn strip_json_fence(content: &str) -> (r: &str)
    ensures
        r@ == spec_strip_json_fence(content@),
{
    let t = trim(content);
    let rest = match crate::text::strip_prefix(t, "```json") {
        Some(rest) => rest,
        None => match crate::text::strip_prefix(t, "```") {
            Some(rest) => rest,
            None => t,
        },
    };
    let without_start = trim(rest);
    let body = match crate::text::strip_suffix(without_start, "```") {
        Some(b) => b,
        None => without_start,
    };
    trim(body)
}

pub const NO_SUMMARY_ERROR: &'static str = "AI provider summary JSON did not include a summary.";

/// The summary text of a provider's answer: its `summary` field when present, else its
/// `summary_text` field (each as display text); refused when that is missing or blank.
pub fn select_summary_text(summary: Option<String>, summary_text: Option<String>) -> (r: Result<
    String,
    String,
>)
    ensures
        match r {
            Ok(text) => (summary == Some(text) || (summary is None && summary_text == Some(
                text,
            ))) && trimmed(text@).len() > 0,
            Err(e) => e@ == NO_SUMMARY_ERROR@ && match summary {
                Some(s) => trimmed(s@).len() == 0,
                None => match summary_text {
                    Some(s) => trimmed(s@).len() == 0,
                    None => true,
                },
            },
        },
{
    let chosen = match summary {
        Some(s) => Some(s),
        None => summary_text,
    };
    match chosen {
        Some(text) => {
            if trim(text.as_str()).unicode_len() > 0 {
                Ok(text)
            } else {
                Err(String::from_str(NO_SUMMARY_ERROR))
            }
        },
        None => Err(String::from_str(NO_SUMMARY_ERROR)),
    }
}

} // verus!

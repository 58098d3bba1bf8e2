use metafy::transcription::{
    build_audio_extract_command, build_whisper_command, joined_segment_text,
    local_model_from_file, model_path, normalize_model_name, sort_local_models,
    trim_ascii_whitespace, whisper_json_from_stdout, whisper_model_status,
    whisper_segment, whisper_transcript_fields, WhisperLocalModel, WhisperModelProbe,
    WhisperSegment, DEFAULT_WHISPER_MODEL,
};

fn model(name: &str) -> WhisperLocalModel {
    WhisperLocalModel {
        name: name.to_owned(),
        file_name: format!("ggml-{name}.bin"),
        path: format!("/models/ggml-{name}.bin"),
    }
}

#[test]
fn normalizes_whisper_model_names() {
    assert_eq!(normalize_model_name(None).unwrap(), DEFAULT_WHISPER_MODEL);
    assert_eq!(normalize_model_name(Some("   ")).unwrap(), "small.en");
    assert_eq!(normalize_model_name(Some(" ggml-base.en.bin ")).unwrap(), "base.en");
    assert_eq!(normalize_model_name(Some("medium")).unwrap(), "medium");
    assert_eq!(
        normalize_model_name(Some("../evil")).unwrap_err(),
        "Whisper model names must be local file names only."
    );
    assert_eq!(
        normalize_model_name(Some("dir/model")).unwrap_err(),
        "Whisper model names must be local file names only."
    );
    assert_eq!(
        normalize_model_name(Some("ggml-.bin")).unwrap_err(),
        "Whisper model name is required."
    );
    assert_eq!(
        normalize_model_name(Some("large v3")).unwrap_err(),
        "Whisper model names may only contain letters, numbers, dots, dashes, and underscores."
    );
}

#[test]
fn model_files_live_in_the_model_directory() {
    assert_eq!(model_path("/data/models", "small.en"), "/data/models/ggml-small.en.bin");
    let local = local_model_from_file("ggml-tiny.bin", "/m/ggml-tiny.bin").expect("bin file");
    assert_eq!(local.name, "tiny");
    assert_eq!(local.file_name, "ggml-tiny.bin");
    assert_eq!(local_model_from_file("custom.bin", "/m/custom.bin").unwrap().name, "custom");
    assert!(local_model_from_file("notes.txt", "/m/notes.txt").is_none());
    assert!(local_model_from_file(".bin", "/m/.bin").is_none());
}

#[test]
fn local_models_are_sorted_by_name() {
    let sorted = sort_local_models(vec![model("tiny"), model("base"), model("small.en"), model("base")]);
    let names: Vec<&str> = sorted.iter().map(|m| m.name.as_str()).collect();
    assert_eq!(names, vec!["base", "base", "small.en", "tiny"]);
}

#[test]
fn model_status_reports_selected_model_and_probe() {
    let status = whisper_model_status(
        Some("ggml-base.bin"),
        WhisperModelProbe {
            models_directory: "/data/models".to_owned(),
            model_exists: true,
            available_models: vec![model("tiny"), model("base")],
            binary_path: Some("/usr/bin/whisper-cli".to_owned()),
        },
    )
    .expect("status");
    assert_eq!(status.selected_model, "base");
    assert_eq!(status.default_model, "small.en");
    assert_eq!(status.expected_file_name, "ggml-base.bin");
    assert_eq!(status.model_path, "/data/models/ggml-base.bin");
    assert!(status.exists);
    assert_eq!(status.available_models[0].name, "base");
    assert!(status.binary.available);
    assert_eq!(status.binary.env_var, "METAFY_WHISPER_CPP_PATH");
    assert_eq!(status.binary.candidates, vec!["whisper-cli", "main", "whisper"]);

    let refused = whisper_model_status(
        Some("a/b"),
        WhisperModelProbe {
            models_directory: "/data/models".to_owned(),
            model_exists: false,
            available_models: Vec::new(),
            binary_path: None,
        },
    );
    assert!(refused.is_err());
}

#[test]
fn builds_ffmpeg_and_whisper_command_lines() {
    let extract = build_audio_extract_command("/bin/ffmpeg", "/r/recording.mp4", "/r/a.wav");
    assert_eq!(extract.program, "/bin/ffmpeg");
    assert_eq!(
        extract.args,
        vec![
            "-hide_banner", "-y", "-i", "/r/recording.mp4", "-vn", "-ac", "1", "-ar", "16000",
            "-f", "wav", "/r/a.wav"
        ]
    );
    let english = build_whisper_command("/bin/w", "/m/x.bin", "/r/a.wav", "/r/out", "small.en");
    assert_eq!(
        english.args,
        vec!["-m", "/m/x.bin", "-f", "/r/a.wav", "-oj", "-of", "/r/out", "-l", "en"]
    );
    let multilingual = build_whisper_command("/bin/w", "/m/x.bin", "/r/a.wav", "/r/out", "small");
    assert_eq!(multilingual.args.len(), 7);
}

#[test]
fn whisper_stdout_is_used_only_when_it_holds_json() {
    assert_eq!(trim_ascii_whitespace(b"  {\"a\":1}\n"), b"{\"a\":1}");
    assert_eq!(trim_ascii_whitespace(b" \t\r\n"), b"");
    assert_eq!(whisper_json_from_stdout(b"\n [1]").unwrap(), b"\n [1]".to_vec());
    assert_eq!(
        whisper_json_from_stdout(b"progress 100%").unwrap_err(),
        "whisper.cpp did not produce JSON output."
    );
    assert!(whisper_json_from_stdout(b"   ").is_err());
}

#[test]
fn transcript_text_falls_back_to_joined_segments() {
    let texts = vec![" Hello world. ".to_owned(), "   ".to_owned(), "Back to review.".to_owned()];
    assert_eq!(joined_segment_text(&texts).as_deref(), Some("Hello world. Back to review."));
    assert_eq!(joined_segment_text(&vec!["  ".to_owned()]), None);

    let fields = whisper_transcript_fields(None, None, &texts, "small.en").expect("fields");
    assert_eq!(fields.text.as_deref(), Some("Hello world. Back to review."));
    assert_eq!(fields.language.as_deref(), Some("en"));

    let reported = whisper_transcript_fields(
        Some("de".to_owned()),
        Some("Hallo".to_owned()),
        &Vec::new(),
        "small",
    )
    .expect("fields");
    assert_eq!(reported.language.as_deref(), Some("de"));
    assert_eq!(reported.text.as_deref(), Some("Hallo"));

    assert_eq!(
        whisper_transcript_fields(None, None, &Vec::new(), "small").unwrap_err(),
        "Whisper JSON did not contain transcript text or timestamped segments."
    );
}

#[test]
fn whisper_segments_keep_trimmed_text_and_ordered_times() {
    assert_eq!(
        whisper_segment(0, Some("  Timestamped text. "), Some(1_250), Some(3_500)),
        Some(WhisperSegment {
            segment_index: 0,
            start_ms: 1_250,
            end_ms: 3_500,
            text: "Timestamped text.".to_owned(),
        })
    );
    assert_eq!(whisper_segment(1, Some("   "), Some(0), Some(10)), None);
    assert_eq!(whisper_segment(2, None, Some(0), Some(10)), None);
    assert_eq!(whisper_segment(3, Some("x"), None, Some(10)), None);
    assert_eq!(whisper_segment(4, Some("x"), Some(5), None), None);
    assert_eq!(whisper_segment(5, Some("x"), Some(-1), Some(10)), None);
    assert_eq!(whisper_segment(6, Some("x"), Some(10), Some(9)), None);
    assert_eq!(whisper_segment(7, Some("x"), Some(10), Some(10)).map(|s| s.end_ms), Some(10));
}

#[test]
fn model_file_names_select_their_model() {
    assert_eq!(normalize_model_name(Some("ggml-base.en.bin")), Ok("base.en".to_owned()));
    assert_eq!(normalize_model_name(Some(" tiny ")), Ok("tiny".to_owned()));
    let n = normalize_model_name(Some(" tiny ")).unwrap();
    assert_eq!(normalize_model_name(Some(&format!("ggml-{n}.bin"))), Ok(n));
}

#[test]
fn whisper_status_names_its_binary_candidates() {
    let status = whisper_model_status(
        None,
        WhisperModelProbe {
            models_directory: "/models".to_owned(),
            model_exists: false,
            available_models: Vec::new(),
            binary_path: None,
        },
    )
    .unwrap();
    assert_eq!(status.binary.candidates, vec!["whisper-cli", "main", "whisper"]);
}

#[test]
fn parses_standard_whisper_segments_with_confidence() {
    let first = whisper_segment(0, Some("Welcome everyone."), Some(1_240), Some(6_400))
        .expect("first segment");
    let second = whisper_segment(1, Some("Back to review."), Some(6_400), Some(9_000))
        .expect("second segment");
    let texts = vec![first.text.clone(), second.text.clone()];
    let fields = whisper_transcript_fields(Some("en".to_owned()), None, &texts, DEFAULT_WHISPER_MODEL)
        .expect("parse whisper json");

    assert_eq!(fields.language.as_deref(), Some("en"));
    assert_eq!(texts.len(), 2);
    assert_eq!(first.start_ms, 1_240);
    assert_eq!(first.end_ms, 6_400);
    assert_eq!(
        fields.text.as_deref(),
        Some("Welcome everyone. Back to review.")
    );
}

#[test]
fn parses_whisper_cpp_transcription_offsets() {
    let segment = whisper_segment(0, Some("Timestamped text."), Some(1_250), Some(3_500))
        .expect("parse whisper.cpp json");
    let texts = vec![segment.text.clone()];
    let fields = whisper_transcript_fields(Some("en".to_owned()), None, &texts, DEFAULT_WHISPER_MODEL)
        .expect("parse whisper.cpp json");

    assert_eq!(fields.language.as_deref(), Some("en"));
    assert_eq!(texts.len(), 1);
    assert_eq!(segment.start_ms, 1_250);
    assert_eq!(segment.end_ms, 3_500);
    assert_eq!(segment.segment_index, 0);
}

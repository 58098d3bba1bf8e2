//! Local transcription with whisper.cpp: model names and files, the FFmpeg and whisper.cpp
//! command lines, the paths a transcription writes, and what a whisper.cpp run is turned into.
use vstd::prelude::*;
use vstd::slice::slice_subrange;
use vstd::string::*;

use crate::paths::{
    extension, join_path, spec_extension, spec_join_path, spec_trim_trailing_slashes,
    trim_trailing_slashes,
};
use crate::storage::sessions::{spec_resolve_path, StorageState};
use crate::storage::{lemma_lex_total, lemma_lex_transitive, seq_lex_le, str_lex_le};
use crate::storage::{Recording, RecordingStatus};
use crate::text::{
    contains_str, has_char, join, seq_contains, seq_ends_with, seq_has_char, seq_join,
    seq_starts_with, string_views, strip_prefix, strip_suffix, trim, trimmed,
};

verus! {

pub const DEFAULT_WHISPER_MODEL: &'static str = "small.en";

pub const WHISPER_MODEL_ENV_VAR: &'static str = "METAFY_WHISPER_CPP_PATH";

pub const FFMPEG_ENV_VAR: &'static str = "METAFY_FFMPEG_PATH";

pub const TRANSCRIPT_JSON_FILE_NAME: &'static str = "transcript.json";

pub const TRANSCRIPT_AUDIO_FILE_NAME: &'static str = "transcript-audio.wav";

pub const WHISPER_OUTPUT_PREFIX: &'static str = "whisper-output";

pub const WHISPER_OUTPUT_JSON_FILE_NAME: &'static str = "whisper-output.json";

pub const AUDIO_SAMPLE_RATE: i64 = 16000;

pub const AUDIO_CHANNELS: i64 = 1;

pub const DEFAULT_CHUNK_DURATION_MS: i64 = 30000;

pub const MODEL_NAME_PATH_ERROR: &'static str =
    "Whisper model names must be local file names only.";

pub const MODEL_NAME_REQUIRED_ERROR: &'static str = "Whisper model name is required.";

pub const MODEL_NAME_CHARACTERS_ERROR: &'static str =
    "Whisper model names may only contain letters, numbers, dots, dashes, and underscores.";

/// A request to transcribe a recording.
#[derive(Debug, Clone, PartialEq, Eq)]
pub struct TranscribeRecordingInput {
    pub recording_id: String,
    pub model_name: Option<String>,
}

/// A request to copy a Whisper model file into the model directory.
#[derive(Debug, Clone, PartialEq, Eq)]
pub struct ImportWhisperModelInput {
    pub source_path: String,
    pub model_name: Option<String>,
}

/// A model file found in the model directory.
#[derive(Debug, Clone, PartialEq, Eq)]
pub struct WhisperLocalModel {
    pub name: String,
    pub file_name: String,
    pub path: String,
}

/// Whether a whisper.cpp executable was found, and where it is looked for.
#[derive(Debug, Clone, PartialEq, Eq)]
pub struct WhisperBinaryStatus {
    pub available: bool,
    pub path: Option<String>,
    pub env_var: &'static str,
    pub candidates: Vec<&'static str>,
}

/// The selected model, whether its file is present, and the local models and executable.
#[derive(Debug, Clone, PartialEq, Eq)]
pub struct WhisperModelStatus {
    pub selected_model: String,
    pub default_model: &'static str,
    pub expected_file_name: String,
    pub model_path: String,
    pub models_directory: String,
    pub exists: bool,
    pub available_models: Vec<WhisperLocalModel>,
    pub binary: WhisperBinaryStatus,
}

/// What the audio extraction step produced and how it ran FFmpeg.
#[derive(Debug, Clone, PartialEq, Eq)]
pub struct AudioExtractionResult {
    pub recording_id: String,
    pub media_path: String,
    pub audio_path: String,
    pub ffmpeg_path: String,
    pub ffmpeg_args: Vec<String>,
    pub chunk_duration_ms: i64,
}

/// A program and its arguments.
#[derive(Debug, Clone, PartialEq, Eq)]
pub struct CommandOutput {
    pub program: String,
    pub args: Vec<String>,
}

/// The model name asked for, trimmed; the default one when none or a blank one is given.
pub open spec fn spec_raw_model_name(model_name: Option<Seq<char>>) -> Seq<char> {
    match model_name {
        Some(name) => if trimmed(name).len() > 0 {
            trimmed(name)
        } else {
            DEFAULT_WHISPER_MODEL@
        },
        None => DEFAULT_WHISPER_MODEL@,
    }
}

/// `s` without `prefix` when it starts with it.
pub open spec fn without_prefix(s: Seq<char>, prefix: Seq<char>) -> Seq<char> {
    if seq_starts_with(s, prefix) {
        s.subrange(prefix.len() as int, s.len() as int)
    } else {
        s
    }
}

/// `s` without `suffix` when it ends with it.
pub open spec fn without_suffix(s: Seq<char>, suffix: Seq<char>) -> Seq<char> {
    if seq_ends_with(s, suffix) {
        s.subrange(0, s.len() - suffix.len())
    } else {
        s
    }
}

/// Characters a model name may hold.
pub open spec fn is_model_name_char(c: char) -> bool {
    ('0' <= c && c <= '9') || ('a' <= c && c <= 'z') || ('A' <= c && c <= 'Z') || c == '.' || c
        == '-' || c == '_'
}

/// The model name a request selects: the raw name without a `ggml-` prefix and a `.bin`
/// suffix; refused when it holds a path separator or `..`, is empty, or holds another
/// character than ASCII letters, digits, `.`, `-` and `_` (checked in this order).
pub open spec fn spec_normalize_model_name(model_name: Option<Seq<char>>) -> Result<
    Seq<char>,
    Seq<char>,
> {
    let name = without_suffix(without_prefix(spec_raw_model_name(model_name), "ggml-"@), ".bin"@);
    if seq_has_char(name, '/') || seq_has_char(name, '\\') || seq_contains(name, ".."@) {
        Err(MODEL_NAME_PATH_ERROR@)
    } else if name.len() == 0 {
        Err(MODEL_NAME_REQUIRED_ERROR@)
    } else if !(forall|i: int| 0 <= i < name.len() ==> is_model_name_char(#[trigger] name[i])) {
        Err(MODEL_NAME_CHARACTERS_ERROR@)
    } else {
        Ok(name)
    }
}

/// The file name `ggml-<n>.bin` of an accepted model name `n` selects `n` again.
pub proof fn lemma_model_file_name_selects_model(model_name: Option<Seq<char>>, n: Seq<char>)
    requires
        spec_normalize_model_name(model_name) == Ok::<Seq<char>, Seq<char>>(n),
    ensures
        spec_normalize_model_name(Some("ggml-"@ + n + ".bin"@)) == Ok::<Seq<char>, Seq<char>>(n),
{
    reveal_strlit("ggml-");
    reveal_strlit(".bin");
    let file = "ggml-"@ + n + ".bin"@;
    assert(file[0] == 'g');
    assert(file.last() == 'n');
    assert(!crate::text::is_white_space('g'));
    assert(!crate::text::is_white_space('n'));
    assert(crate::text::trim_start_seq(file) == file);
    assert(crate::text::trim_end_seq(file) == file);
    assert(file.subrange(0, 5) =~= "ggml-"@);
    let rest = file.subrange(5, file.len() as int);
    assert(rest =~= n + ".bin"@);
    assert(rest.subrange(rest.len() - 4, rest.len() as int) =~= ".bin"@);
    assert(rest.subrange(0, rest.len() - 4) =~= n);
}

pub open spec fn opt_str_view(value: Option<&str>) -> Option<Seq<char>> {
    match value {
        Some(s) => Some(s@),
        None => None,
    }
}

pub open spec fn string_result_view(r: Result<String, String>) -> Result<Seq<char>, Seq<char>> {
    match r {
        Ok(s) => Ok(s@),
        Err(e) => Err(e@),
    }
}

fn all_model_name_chars(name: &str) -> (r: bool)
    ensures
        r == (forall|i: int| 0 <= i < name@.len() ==> is_model_name_char(#[trigger] name@[i])),
{
    let n = name.unicode_len();
    let mut i: usize = 0;
    while i < n
        invariant
            n == name@.len(),
            i <= n,
            forall|j: int| 0 <= j < i ==> is_model_name_char(#[trigger] name@[j]),
        decreases n - i,
    {
        let c = name.get_char(i);
        if !(('0' <= c && c <= '9') || ('a' <= c && c <= 'z') || ('A' <= c && c <= 'Z') || c
            == '.' || c == '-' || c == '_') {
            assert(!is_model_name_char(name@[i as int]));
            return false;
        }
        i = i + 1;
    }
    true
}

/// The local model name a request selects, or why it is refused.
pub fn normalize_model_name(model_name: Option<&str>) -> (r: Result<String, String>)
    ensures
        string_result_view(r) == spec_normalize_model_name(opt_str_view(model_name)),
{
    let raw: &str = match model_name {
        Some(name) => {
            let t = trim(name);
            if t.unicode_len() > 0 {
                t
            } else {
                DEFAULT_WHISPER_MODEL
            }
        },
        None => DEFAULT_WHISPER_MODEL,
    };
    assert(raw@ == spec_raw_model_name(opt_str_view(model_name)));
    let unprefixed: &str = match strip_prefix(raw, "ggml-") {
        Some(rest) => rest,
        None => raw,
    };
    let name: &str = match strip_suffix(unprefixed, ".bin") {
        Some(rest) => rest,
        None => unprefixed,
    };
    if has_char(name, '/') || has_char(name, '\\') || contains_str(name, "..") {
        return Err(String::from_str(MODEL_NAME_PATH_ERROR));
    }
    if name.unicode_len() == 0 {
        return Err(String::from_str(MODEL_NAME_REQUIRED_ERROR));
    }
    if !all_model_name_chars(name) {
        return Err(String::from_str(MODEL_NAME_CHARACTERS_ERROR));
    }
    Ok(name.to_owned())
}

/// The file that holds model `name`.
pub open spec fn spec_model_file_name(name: Seq<char>) -> Seq<char> {
    "ggml-"@ + name + ".bin"@
}

pub fn model_file_name(name: &str) -> (r: String)
    ensures
        r@ == spec_model_file_name(name@),
{
    String::from_str("ggml-").concat(name).concat(".bin")
}

/// Where model `name` is kept in `models_directory`.
pub fn model_path(models_directory: &str, name: &str) -> (r: String)
    ensures
        r@ == spec_join_path(models_directory@, spec_model_file_name(name@)),
{
    let file = model_file_name(name);
    join_path(models_directory, file.as_str())
}

/// The model name a file name stands for: the name without a `ggml-` prefix, then without a
/// `.bin` suffix; the whole file name where the second step finds no suffix.
pub open spec fn spec_local_model_name(file_name: Seq<char>) -> Seq<char> {
    let unprefixed = without_prefix(file_name, "ggml-"@);
    if seq_ends_with(unprefixed, ".bin"@) {
        without_suffix(unprefixed, ".bin"@)
    } else {
        file_name
    }
}

/// A model file seen in the model directory: one whose extension is `bin`.
pub open spec fn spec_local_model(file_name: Seq<char>, path: Seq<char>) -> Option<
    (Seq<char>, Seq<char>, Seq<char>),
> {
    if spec_extension(file_name) == Some("bin"@) {
        Some((spec_local_model_name(file_name), file_name, path))
    } else {
        None
    }
}

pub open spec fn local_model_view(model: WhisperLocalModel) -> (Seq<char>, Seq<char>, Seq<char>) {
    (model.name@, model.file_name@, model.path@)
}

/// The model a file of the model directory stands for, when it is a `.bin` file.
pub fn local_model_from_file(file_name: &str, path: &str) -> (r: Option<WhisperLocalModel>)
    ensures
        match r {
            Some(model) => spec_local_model(file_name@, path@) == Some(local_model_view(model)),
            None => spec_local_model(file_name@, path@) is None,
        },
{
    let is_bin = match extension(file_name) {
        Some(ext) => crate::text::str_equals(ext, "bin"),
        None => false,
    };
    if !is_bin {
        return None;
    }
    let unprefixed: &str = match strip_prefix(file_name, "ggml-") {
        Some(rest) => rest,
        None => file_name,
    };
    let name: &str = match strip_suffix(unprefixed, ".bin") {
        Some(rest) => rest,
        None => file_name,
    };
    Some(
        WhisperLocalModel {
            name: name.to_owned(),
            file_name: file_name.to_owned(),
            path: path.to_owned(),
        },
    )
}

/// Models listed by name, in text order, each name no later than the next.
pub open spec fn sorted_by_name(models: Seq<WhisperLocalModel>) -> bool {
    forall|i: int, j: int|
        0 <= i < j < models.len() ==> seq_lex_le(
            #[trigger] models[i].name@,
            #[trigger] models[j].name@,
        )
}

/// The first position in `sorted` whose name comes strictly after `name`.
fn insertion_point(sorted: &Vec<WhisperLocalModel>, name: &str) -> (r: usize)
    ensures
        r <= sorted@.len(),
        forall|k: int| 0 <= k < r ==> seq_lex_le(#[trigger] sorted@[k].name@, name@),
        r < sorted@.len() ==> !seq_lex_le(sorted@[r as int].name@, name@),
{
    let mut i: usize = 0;
    while i < sorted.len()
        invariant
            i <= sorted@.len(),
            forall|k: int| 0 <= k < i ==> seq_lex_le(#[trigger] sorted@[k].name@, name@),
        decreases sorted@.len() - i,
    {
        if !str_lex_le(sorted[i].name.as_str(), name) {
            return i;
        }
        i = i + 1;
    }
    i
}

/// `models` ordered by name, keeping the order of equal names: the same models, each name
/// no later than the next.
pub fn sort_local_models(models: Vec<WhisperLocalModel>) -> (r: Vec<WhisperLocalModel>)
    ensures
        r@.to_multiset() == models@.to_multiset(),
        r@.len() == models@.len(),
        sorted_by_name(r@),
{
    broadcast use vstd::seq_lib::group_to_multiset_ensures;

    let mut rest = models;
    let mut sorted: Vec<WhisperLocalModel> = Vec::new();
    while rest.len() > 0
        invariant
            sorted@.to_multiset().add(rest@.to_multiset()) == models@.to_multiset(),
            sorted@.len() + rest@.len() == models@.len(),
            sorted_by_name(sorted@),
        decreases rest@.len(),
    {
        let ghost before_rest = rest@;
        let ghost before_sorted = sorted@;
        let model = rest.remove(0);
        let at = insertion_point(&sorted, model.name.as_str());
        let ghost name = model.name@;
        sorted.insert(at, model);
        proof {
            vstd::seq_lib::to_multiset_remove(before_rest, 0);
            vstd::seq_lib::to_multiset_insert(before_sorted, at as int, before_rest[0]);
            vstd::seq_lib::to_multiset_contains(before_rest, before_rest[0]);
            assert(before_rest.contains(before_rest[0]));
            broadcast use vstd::multiset::group_multiset_axioms;
            assert(sorted@.to_multiset().add(rest@.to_multiset()) =~= models@.to_multiset());
            assert forall|i: int, j: int| 0 <= i < j < sorted@.len() implies seq_lex_le(
                #[trigger] sorted@[i].name@,
                #[trigger] sorted@[j].name@,
            ) by {
                if j < at {
                    assert(sorted@[i] == before_sorted[i] && sorted@[j] == before_sorted[j]);
                } else if j == at {
                    assert(sorted@[i] == before_sorted[i]);
                } else if i == at {
                    assert(sorted@[j] == before_sorted[j - 1]);
                    lemma_lex_total(before_sorted[at as int].name@, name);
                    if j - 1 > at {
                        lemma_lex_transitive(
                            name,
                            before_sorted[at as int].name@,
                            before_sorted[j - 1].name@,
                        );
                    }
                } else if i < at {
                    assert(sorted@[i] == before_sorted[i] && sorted@[j] == before_sorted[j - 1]);
                } else {
                    assert(sorted@[i] == before_sorted[i - 1] && sorted@[j] == before_sorted[j - 1]);
                }
            }
        }
    }
    proof {
        assert(rest@.len() == 0);
        assert(rest@.to_multiset() =~= vstd::multiset::Multiset::empty());
        assert(sorted@.to_multiset().add(rest@.to_multiset()) =~= sorted@.to_multiset());
    }
    sorted
}

/// The names under which a whisper.cpp executable is looked for.
pub fn whisper_binary_candidates() -> (r: Vec<&'static str>)
    ensures
        r@.len() == 3,
        r@[0]@ == "whisper-cli"@,
        r@[1]@ == "main"@,
        r@[2]@ == "whisper"@,
{
    let mut r: Vec<&'static str> = Vec::new();
    r.push("whisper-cli");
    r.push("main");
    r.push("whisper");
    r
}

/// What was found on disk for a model status: the model directory, whether the selected
/// model's file is present, the model files there, and the whisper.cpp executable.
#[derive(Debug, Clone, PartialEq, Eq)]
pub struct WhisperModelProbe {
    pub models_directory: String,
    pub model_exists: bool,
    pub available_models: Vec<WhisperLocalModel>,
    pub binary_path: Option<String>,
}

/// The status of the model a request selects, given what was found on disk; the request's
/// refusal when its model name is refused.
pub fn whisper_model_status(model_name: Option<&str>, probe: WhisperModelProbe) -> (r: Result<
    WhisperModelStatus,
    String,
>)
    ensures
        match r {
            Ok(status) => {
                &&& spec_normalize_model_name(opt_str_view(model_name)) == Ok::<
                    Seq<char>,
                    Seq<char>,
                >(status.selected_model@)
                &&& status.default_model@ == DEFAULT_WHISPER_MODEL@
                &&& status.expected_file_name@ == spec_model_file_name(status.selected_model@)
                &&& status.model_path@ == spec_join_path(
                    probe.models_directory@,
                    spec_model_file_name(status.selected_model@),
                )
                &&& status.models_directory == probe.models_directory
                &&& status.exists == probe.model_exists
                &&& status.available_models@.to_multiset()
                    == probe.available_models@.to_multiset()
                &&& sorted_by_name(status.available_models@)
                &&& status.binary.available == probe.binary_path.is_some()
                &&& status.binary.path == probe.binary_path
                &&& status.binary.env_var@ == WHISPER_MODEL_ENV_VAR@
                &&& status.binary.candidates@.len() == 3
                &&& status.binary.candidates@[0]@ == "whisper-cli"@
                &&& status.binary.candidates@[1]@ == "main"@
                &&& status.binary.candidates@[2]@ == "whisper"@
            },
            Err(e) => spec_normalize_model_name(opt_str_view(model_name)) == Err::<
                Seq<char>,
                Seq<char>,
            >(e@),
        },
{
    let selected = match normalize_model_name(model_name) {
        Ok(name) => name,
        Err(e) => return Err(e),
    };
    let path = model_path(probe.models_directory.as_str(), selected.as_str());
    let expected = model_file_name(selected.as_str());
    let available = sort_local_models(probe.available_models);
    let available_binary = probe.binary_path.is_some();
    Ok(
        WhisperModelStatus {
            selected_model: selected,
            default_model: DEFAULT_WHISPER_MODEL,
            expected_file_name: expected,
            model_path: path,
            models_directory: probe.models_directory,
            exists: probe.model_exists,
            available_models: available,
            binary: WhisperBinaryStatus {
                available: available_binary,
                path: probe.binary_path,
                env_var: WHISPER_MODEL_ENV_VAR,
                candidates: whisper_binary_candidates(),
            },
        },
    )
}

/// The FFmpeg call that extracts a mono 16 kHz WAV file from a recording's media.
pub open spec fn spec_audio_extract_args(media_path: Seq<char>, audio_path: Seq<char>) -> Seq<
    Seq<char>,
> {
    seq![
        "-hide_banner"@,
        "-y"@,
        "-i"@,
        media_path,
        "-vn"@,
        "-ac"@,
        "1"@,
        "-ar"@,
        "16000"@,
        "-f"@,
        "wav"@,
        audio_path,
    ]
}

pub fn build_audio_extract_command(ffmpeg_path: &str, media_path: &str, audio_path: &str) -> (r:
    CommandOutput)
    ensures
        r.program@ == ffmpeg_path@,
        string_views(r.args@) == spec_audio_extract_args(media_path@, audio_path@),
{
    let mut args: Vec<String> = Vec::new();
    args.push(String::from_str("-hide_banner"));
    args.push(String::from_str("-y"));
    args.push(String::from_str("-i"));
    args.push(media_path.to_owned());
    args.push(String::from_str("-vn"));
    args.push(String::from_str("-ac"));
    args.push(String::from_str("1"));
    args.push(String::from_str("-ar"));
    args.push(String::from_str("16000"));
    args.push(String::from_str("-f"));
    args.push(String::from_str("wav"));
    args.push(audio_path.to_owned());
    assert(string_views(args@) =~= spec_audio_extract_args(media_path@, audio_path@));
    CommandOutput { program: ffmpeg_path.to_owned(), args }
}

/// The whisper.cpp call: model, input audio, JSON output under the prefix, and English as
/// the language for an English-only (`.en`) model.
pub open spec fn spec_whisper_args(
    model_path: Seq<char>,
    audio_path: Seq<char>,
    output_prefix: Seq<char>,
    model_name: Seq<char>,
) -> Seq<Seq<char>> {
    let base = seq!["-m"@, model_path, "-f"@, audio_path, "-oj"@, "-of"@, output_prefix];
    if seq_ends_with(model_name, ".en"@) {
        base + seq!["-l"@, "en"@]
    } else {
        base
    }
}

pub fn build_whisper_command(
    whisper_path: &str,
    model_path: &str,
    audio_path: &str,
    output_prefix: &str,
    model_name: &str,
) -> (r: CommandOutput)
    ensures
        r.program@ == whisper_path@,
        string_views(r.args@) == spec_whisper_args(
            model_path@,
            audio_path@,
            output_prefix@,
            model_name@,
        ),
{
    let mut args: Vec<String> = Vec::new();
    args.push(String::from_str("-m"));
    args.push(model_path.to_owned());
    args.push(String::from_str("-f"));
    args.push(audio_path.to_owned());
    args.push(String::from_str("-oj"));
    args.push(String::from_str("-of"));
    args.push(output_prefix.to_owned());
    if crate::text::ends_with(model_name, ".en") {
        args.push(String::from_str("-l"));
        args.push(String::from_str("en"));
    }
    assert(string_views(args@) =~= spec_whisper_args(
        model_path@,
        audio_path@,
        output_prefix@,
        model_name@,
    ));
    CommandOutput { program: whisper_path.to_owned(), args }
}

/// The bytes `u8::is_ascii_whitespace` accepts: space, tab, line feed, form feed, carriage
/// return.
pub open spec fn is_ascii_white_byte(b: u8) -> bool {
    b == 0x20 || b == 0x09 || b == 0x0a || b == 0x0c || b == 0x0d
}

pub open spec fn trim_start_bytes(s: Seq<u8>) -> Seq<u8>
    decreases s.len(),
{
    if s.len() > 0 && is_ascii_white_byte(s[0]) {
        trim_start_bytes(s.drop_first())
    } else {
        s
    }
}

pub open spec fn trim_end_bytes(s: Seq<u8>) -> Seq<u8>
    decreases s.len(),
{
    if s.len() > 0 && is_ascii_white_byte(s.last()) {
        trim_end_bytes(s.drop_last())
    } else {
        s
    }
}

/// `s` without ASCII white space at either end.
pub open spec fn trimmed_bytes(s: Seq<u8>) -> Seq<u8> {
    trim_end_bytes(trim_start_bytes(s))
}

/// `value` without ASCII white space at either end.
pub fn trim_ascii_whitespace(value: &[u8]) -> (r: &[u8])
    ensures
        r@ == trimmed_bytes(value@),
{
    let n = value.len();
    let mut start: usize = 0;
    assert(value@.subrange(0, n as int) =~= value@);
    while start < n && (value[start] == 0x20 || value[start] == 0x09 || value[start] == 0x0a
        || value[start] == 0x0c || value[start] == 0x0d)
        invariant
            n == value@.len(),
            start <= n,
            trim_start_bytes(value@) == trim_start_bytes(value@.subrange(start as int, n as int)),
        decreases n - start,
    {
        assert(value@.subrange(start as int, n as int).drop_first() =~= value@.subrange(
            start + 1,
            n as int,
        ));
        start = start + 1;
    }
    let ghost rest = value@.subrange(start as int, n as int);
    assert(trim_start_bytes(value@) == rest);
    let mut end: usize = n;
    assert(rest.subrange(0, (end - start) as int) =~= rest);
    while end > start && (value[end - 1] == 0x20 || value[end - 1] == 0x09 || value[end - 1]
        == 0x0a || value[end - 1] == 0x0c || value[end - 1] == 0x0d)
        invariant
            n == value@.len(),
            start <= end <= n,
            rest == value@.subrange(start as int, n as int),
            trim_end_bytes(rest) == trim_end_bytes(value@.subrange(start as int, end as int)),
        decreases end,
    {
        assert(value@.subrange(start as int, end as int).drop_last() =~= value@.subrange(
            start as int,
            end - 1,
        ));
        end = end - 1;
    }
    slice_subrange(value, start, end)
}

pub const NO_JSON_OUTPUT_ERROR: &'static str = "whisper.cpp did not produce JSON output.";

/// whisper.cpp printed its JSON rather than writing the output file: the printed bytes,
/// when, trimmed, they open a JSON object or array.
pub fn whisper_json_from_stdout(stdout: &[u8]) -> (r: Result<Vec<u8>, String>)
    ensures
        match r {
            Ok(json) => json@ == stdout@ && trimmed_bytes(stdout@).len() > 0 && (trimmed_bytes(
                stdout@,
            )[0] == 0x7b || trimmed_bytes(stdout@)[0] == 0x5b),
            Err(e) => e@ == NO_JSON_OUTPUT_ERROR@ && (trimmed_bytes(stdout@).len() == 0 || (
            trimmed_bytes(stdout@)[0] != 0x7b && trimmed_bytes(stdout@)[0] != 0x5b)),
        },
{
    let trimmed_stdout = trim_ascii_whitespace(stdout);
    if trimmed_stdout.len() > 0 && (trimmed_stdout[0] == 0x7b || trimmed_stdout[0] == 0x5b) {
        let mut json: Vec<u8> = Vec::new();
        json.extend_from_slice(stdout);
        assert(json@ =~= stdout@);
        Ok(json)
    } else {
        Err(String::from_str(NO_JSON_OUTPUT_ERROR))
    }
}

pub const NOT_COMPLETED_ERROR: &'static str = "Only completed recordings can be transcribed.";

pub const NO_MEDIA_PATH_ERROR: &'static str = "Recording has no MP4 media path to transcribe.";

/// Where a transcription of a recording reads and writes.
#[derive(Debug, Clone, PartialEq, Eq)]
pub struct RecordingTranscriptPaths {
    pub media_path: String,
    pub recording_directory: String,
    pub audio_path: String,
    pub raw_json_path: String,
    pub raw_json_path_relative: String,
    pub temporary_output_prefix: String,
    pub temporary_json_path: String,
}

/// The stored path of a recording's raw transcript JSON.
pub open spec fn spec_raw_json_path_relative(recording_directory: Seq<char>) -> Seq<char> {
    spec_trim_trailing_slashes(recording_directory) + "/"@ + TRANSCRIPT_JSON_FILE_NAME@
}

/// The paths of a transcription of `recording`: refused unless the recording is completed
/// and has a media path.
pub fn recording_transcript_paths(storage: &StorageState, recording: &Recording) -> (r: Result<
    RecordingTranscriptPaths,
    String,
>)
    ensures
        recording.status != RecordingStatus::Completed ==> (r matches Err(e) && e@
            == NOT_COMPLETED_ERROR@),
        recording.status == RecordingStatus::Completed && recording.media_path is None ==> (
        r matches Err(e) && e@ == NO_MEDIA_PATH_ERROR@),
        recording.status == RecordingStatus::Completed && recording.media_path is Some ==> r is Ok,
        match r {
            Ok(paths) => {
                let root = storage.paths.root@;
                let directory = spec_resolve_path(root, recording.recording_directory@);
                &&& recording.status == RecordingStatus::Completed
                &&& recording.media_path matches Some(media) && paths.media_path@
                    == spec_resolve_path(root, media@)
                &&& paths.recording_directory@ == directory
                &&& paths.audio_path@ == spec_join_path(directory, TRANSCRIPT_AUDIO_FILE_NAME@)
                &&& paths.raw_json_path_relative@ == spec_raw_json_path_relative(
                    recording.recording_directory@,
                )
                &&& paths.raw_json_path@ == spec_resolve_path(
                    root,
                    spec_raw_json_path_relative(recording.recording_directory@),
                )
                &&& paths.temporary_output_prefix@ == spec_join_path(
                    directory,
                    WHISPER_OUTPUT_PREFIX@,
                )
                &&& paths.temporary_json_path@ == spec_join_path(
                    directory,
                    WHISPER_OUTPUT_JSON_FILE_NAME@,
                )
            },
            Err(_) => true,
        },
{
    if recording.status != RecordingStatus::Completed {
        return Err(String::from_str(NOT_COMPLETED_ERROR));
    }
    let media_path = match &recording.media_path {
        Some(path) => storage.resolve_path(path.as_str()),
        None => return Err(String::from_str(NO_MEDIA_PATH_ERROR)),
    };
    let recording_directory = storage.resolve_path(recording.recording_directory.as_str());
    let relative = trim_trailing_slashes(recording.recording_directory.as_str()).to_owned().concat(
        "/",
    ).concat(TRANSCRIPT_JSON_FILE_NAME);
    let raw_json_path = storage.resolve_path(relative.as_str());
    let audio_path = join_path(recording_directory.as_str(), TRANSCRIPT_AUDIO_FILE_NAME);
    let temporary_output_prefix = join_path(recording_directory.as_str(), WHISPER_OUTPUT_PREFIX);
    let temporary_json_path = join_path(
        recording_directory.as_str(),
        WHISPER_OUTPUT_JSON_FILE_NAME,
    );
    Ok(
        RecordingTranscriptPaths {
            media_path,
            recording_directory,
            audio_path,
            raw_json_path,
            raw_json_path_relative: relative,
            temporary_output_prefix,
            temporary_json_path,
        },
    )
}

/// The trimmed texts that are not blank, in order.
pub open spec fn nonblank_trimmed(texts: Seq<Seq<char>>) -> Seq<Seq<char>>
    decreases texts.len(),
{
    if texts.len() == 0 {
        Seq::empty()
    } else if trimmed(texts.last()).len() > 0 {
        nonblank_trimmed(texts.drop_last()).push(trimmed(texts.last()))
    } else {
        nonblank_trimmed(texts.drop_last())
    }
}

/// The text of a transcript put together from its segments: their trimmed, non-blank texts
/// joined by single spaces; none when that is empty.
pub open spec fn spec_joined_segment_text(texts: Seq<Seq<char>>) -> Option<Seq<char>> {
    let joined = seq_join(nonblank_trimmed(texts), " "@);
    if joined.len() > 0 {
        Some(joined)
    } else {
        None
    }
}

pub open spec fn opt_string_view(value: Option<String>) -> Option<Seq<char>> {
    match value {
        Some(s) => Some(s@),
        None => None,
    }
}

pub fn joined_segment_text(texts: &Vec<String>) -> (r: Option<String>)
    ensures
        opt_string_view(r) == spec_joined_segment_text(string_views(texts@)),
{
    let mut kept: Vec<String> = Vec::new();
    let mut i: usize = 0;
    while i < texts.len()
        invariant
            i <= texts@.len(),
            string_views(kept@) == nonblank_trimmed(string_views(texts@).subrange(0, i as int)),
        decreases texts@.len() - i,
    {
        let t = trim(texts[i].as_str());
        let ghost prefix = string_views(texts@).subrange(0, i as int + 1);
        assert(prefix.drop_last() =~= string_views(texts@).subrange(0, i as int));
        assert(prefix.last() == texts@[i as int]@);
        if t.unicode_len() > 0 {
            kept.push(t.to_owned());
            assert(string_views(kept@) =~= nonblank_trimmed(prefix));
        } else {
            assert(string_views(kept@) =~= nonblank_trimmed(prefix));
        }
        i = i + 1;
    }
    assert(string_views(texts@).subrange(0, texts@.len() as int) =~= string_views(texts@));
    let joined = join(&kept, " ");
    if joined.unicode_len() > 0 {
        Some(joined)
    } else {
        None
    }
}

/// A timestamped segment of a whisper.cpp result, as it is kept.
#[derive(Debug, Clone, PartialEq, Eq)]
pub struct WhisperSegment {
    pub segment_index: i64,
    pub start_ms: i64,
    pub end_ms: i64,
    pub text: String,
}

/// The segment at `index` of a whisper.cpp result, from its text and the first start and end
/// times it reports: kept with its text trimmed when the text is not blank, both times are
/// present, the start is not negative and the end is not before the start.
pub fn whisper_segment(index: usize, text: Option<&str>, start_ms: Option<i64>, end_ms: Option<
    i64,
>) -> (r: Option<WhisperSegment>)
    requires
        index <= i64::MAX,
    ensures
        r is Some <==> (text is Some && trimmed(text->0@).len() > 0 && start_ms is Some
            && end_ms is Some && start_ms->0 >= 0 && end_ms->0 >= start_ms->0),
        r matches Some(segment) ==> segment.segment_index == index && Some(segment.start_ms)
            == start_ms && Some(segment.end_ms) == end_ms && segment.text@ == trimmed(text->0@),
{
    let text = match text {
        Some(t) => trim(t),
        None => return None,
    };
    if text.unicode_len() == 0 {
        return None;
    }
    let (start_ms, end_ms) = match (start_ms, end_ms) {
        (Some(s), Some(e)) => (s, e),
        _ => return None,
    };
    if start_ms < 0 || end_ms < start_ms {
        return None;
    }
    Some(
        WhisperSegment {
            segment_index: index as i64,
            start_ms,
            end_ms,
            text: text.to_owned(),
        },
    )
}

pub const NO_TRANSCRIPT_CONTENT_ERROR: &'static str =
    "Whisper JSON did not contain transcript text or timestamped segments.";

/// What a whisper.cpp result contributes to the stored transcript.
#[derive(Debug, Clone, PartialEq, Eq)]
pub struct WhisperTranscriptFields {
    pub language: Option<String>,
    pub text: Option<String>,
}

/// The language and text of a transcript from what whisper.cpp reported: its language, else
/// English for an English-only model; its text, else the segments' texts joined; refused when
/// it has no segment and no text.
pub fn whisper_transcript_fields(
    reported_language: Option<String>,
    reported_text: Option<String>,
    segment_texts: &Vec<String>,
    model_name: &str,
) -> (r: Result<WhisperTranscriptFields, String>)
    ensures
        match r {
            Ok(fields) => {
                &&& opt_string_view(fields.text) == match opt_string_view(reported_text) {
                    Some(t) => Some(t),
                    None => spec_joined_segment_text(string_views(segment_texts@)),
                }
                &&& opt_string_view(fields.language) == match opt_string_view(
                    reported_language,
                ) {
                    Some(l) => Some(l),
                    None => if seq_ends_with(model_name@, ".en"@) {
                        Some("en"@)
                    } else {
                        None
                    },
                }
                &&& segment_texts@.len() > 0 || fields.text is Some
            },
            Err(e) => e@ == NO_TRANSCRIPT_CONTENT_ERROR@ && segment_texts@.len() == 0
                && reported_text is None && spec_joined_segment_text(string_views(segment_texts@))
                is None,
        },
{
    let text = match reported_text {
        Some(t) => Some(t),
        None => joined_segment_text(segment_texts),
    };
    let language = match reported_language {
        Some(l) => Some(l),
        None => if crate::text::ends_with(model_name, ".en") {
            Some(String::from_str("en"))
        } else {
            None
        },
    };
    if segment_texts.len() == 0 && text.is_none() {
        return Err(String::from_str(NO_TRANSCRIPT_CONTENT_ERROR));
    }
    Ok(WhisperTranscriptFields { language, text })
}

} // verus!

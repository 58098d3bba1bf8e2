//! What a native encoder is given and what it reports back.
use vstd::prelude::*;
use vstd::string::*;

use crate::media::metadata::{derive_media_info, spec_longest, spec_media_duration, MediaInfo, MediaInfoSource};
use crate::media::thumbnail::BgraFrame;

verus! {

/// Everything needed to encode one recording.
#[derive(Debug, Clone, PartialEq, Eq)]
pub struct EncodeInput {
    pub recording_id: String,
    pub video: EncodeVideoInput,
    pub audio_inputs: Vec<EncodeAudioInput>,
    pub output: EncodeOutputPaths,
    pub duration_hint_ms: Option<i64>,
    pub warnings: Vec<String>,
}

/// The captured video of a recording.
#[derive(Debug, Clone, PartialEq, Eq)]
pub struct EncodeVideoInput {
    pub path: String,
    pub format: EncodeVideoFormat,
    pub width: i64,
    pub height: i64,
    pub frame_rate: i64,
    pub frame_count: i64,
    pub thumbnail_frame: BgraFrame,
}

/// How captured video is stored.
#[derive(Debug, Clone, Copy, PartialEq, Eq, Structural)]
pub enum EncodeVideoFormat {
    RawBgra,
    ChunkedH264Segments,
}

/// A prepared audio track.
#[derive(Debug, Clone, PartialEq, Eq)]
pub struct EncodeAudioInput {
    pub path: String,
    pub sample_rate: i64,
    pub channels: i64,
    pub sample_format: String,
    pub duration_ms: Option<i64>,
}

/// Where the encoded media and thumbnail go, and where they are staged first.
#[derive(Debug, Clone, PartialEq, Eq)]
pub struct EncodeOutputPaths {
    pub media_path: String,
    pub media_path_relative: String,
    pub thumbnail_path: String,
    pub thumbnail_path_relative: String,
    pub staging_media_path: String,
    pub staging_thumbnail_path: String,
}

/// What an encoder produced.
#[derive(Debug, Clone, PartialEq, Eq)]
pub struct EncodeOutput {
    pub recording_id: String,
    pub media_path: String,
    pub thumbnail_path: Option<String>,
    pub absolute_media_path: String,
    pub absolute_thumbnail_path: Option<String>,
    pub duration_ms: Option<i64>,
    pub width: i64,
    pub height: i64,
    pub frame_rate: i64,
    pub frame_count: i64,
    pub audio_included: bool,
    pub media_info: MediaInfo,
    pub diagnostics: EncodeDiagnostics,
    pub warnings: Vec<String>,
}

/// How an encoder went about its work.
#[derive(Debug, Clone, PartialEq, Eq)]
pub struct EncodeDiagnostics {
    pub backend: String,
    pub commands: Vec<EncodeCommandDiagnostics>,
    pub messages: Vec<String>,
}

/// One outside program an encoder ran.
#[derive(Debug, Clone, PartialEq, Eq)]
pub struct EncodeCommandDiagnostics {
    pub label: String,
    pub program: String,
    pub args: Vec<String>,
}

/// The longest known duration of the audio inputs, none when none is known.
pub open spec fn spec_longest_audio(inputs: Seq<EncodeAudioInput>) -> Option<i64>
    decreases inputs.len(),
{
    if inputs.len() == 0 {
        None
    } else {
        spec_longest(spec_longest_audio(inputs.drop_last()), inputs.last().duration_ms)
    }
}

pub fn longest_audio_duration(inputs: &Vec<EncodeAudioInput>) -> (r: Option<i64>)
    ensures
        r == spec_longest_audio(inputs@),
{
    let mut longest: Option<i64> = None;
    let mut i: usize = 0;
    while i < inputs.len()
        invariant
            i <= inputs@.len(),
            longest == spec_longest_audio(inputs@.subrange(0, i as int)),
        decreases inputs@.len() - i,
    {
        assert(inputs@.subrange(0, i + 1).drop_last() =~= inputs@.subrange(0, i as int));
        longest = match (longest, inputs[i].duration_ms) {
            (Some(x), Some(y)) => Some(if x >= y { x } else { y }),
            (Some(x), None) => Some(x),
            (None, Some(y)) => Some(y),
            (None, None) => None,
        };
        i = i + 1;
    }
    assert(inputs@.subrange(0, inputs@.len() as int) =~= inputs@);
    longest
}

fn copy_strings(values: &Vec<String>) -> (r: Vec<String>)
    ensures
        r@ == values@,
{
    let mut r: Vec<String> = Vec::new();
    let mut i: usize = 0;
    while i < values.len()
        invariant
            i <= values@.len(),
            r@ == values@.subrange(0, i as int),
        decreases values@.len() - i,
    {
        r.push(values[i].clone());
        assert(r@ =~= values@.subrange(0, i + 1));
        i = i + 1;
    }
    assert(values@.subrange(0, values@.len() as int) =~= values@);
    r
}

/// What a platform encoder reports once its file and thumbnail are in place: the recording's
/// relative media and thumbnail paths and their absolute forms (the thumbnail's only when its
/// file exists), the media description (the video's size and frames, the longer of the video
/// and the longest audio input, else the session's duration, whether there was audio, the
/// file's size), the backend and its messages, and the input's warnings.
pub fn encode_output(
    input: EncodeInput,
    backend: &str,
    messages: Vec<String>,
    thumbnail_exists: bool,
    file_size_bytes: Option<u64>,
) -> (r: EncodeOutput)
    ensures
        ({
            let source = MediaInfoSource {
                width: input.video.width,
                height: input.video.height,
                frame_rate: input.video.frame_rate,
                frame_count: input.video.frame_count,
                audio_duration_ms: spec_longest_audio(input.audio_inputs@),
                duration_hint_ms: input.duration_hint_ms,
                audio_included: input.audio_inputs@.len() > 0,
                backend_id: r.diagnostics.backend,
                backend_diagnostics: messages,
            };
            &&& r.recording_id == input.recording_id
            &&& r.media_path == input.output.media_path_relative
            &&& r.thumbnail_path == Some(input.output.thumbnail_path_relative)
            &&& r.absolute_media_path == input.output.media_path
            &&& r.absolute_thumbnail_path == if thumbnail_exists {
                Some(input.output.thumbnail_path)
            } else {
                None
            }
            &&& r.diagnostics.backend@ == backend@
            &&& r.diagnostics.commands@.len() == 0
            &&& r.diagnostics.messages == messages
            &&& r.media_info.width == input.video.width
            &&& r.media_info.height == input.video.height
            &&& r.media_info.frame_rate == input.video.frame_rate
            &&& r.media_info.frame_count == input.video.frame_count
            &&& r.media_info.duration_ms == spec_media_duration(source)
            &&& r.media_info.audio_included == (input.audio_inputs@.len() > 0)
            &&& r.media_info.file_size_bytes == file_size_bytes
            &&& r.media_info.backend_id@ == backend@
            &&& r.media_info.backend_diagnostics@ == messages@
            &&& r.duration_ms == r.media_info.duration_ms
            &&& r.width == input.video.width
            &&& r.height == input.video.height
            &&& r.frame_rate == input.video.frame_rate
            &&& r.frame_count == input.video.frame_count
            &&& r.audio_included == (input.audio_inputs@.len() > 0)
            &&& r.warnings == input.warnings
        }),
{
    let audio_duration_ms = longest_audio_duration(&input.audio_inputs);
    let media_info = derive_media_info(
        MediaInfoSource {
            width: input.video.width,
            height: input.video.height,
            frame_rate: input.video.frame_rate,
            frame_count: input.video.frame_count,
            audio_duration_ms,
            duration_hint_ms: input.duration_hint_ms,
            audio_included: input.audio_inputs.len() > 0,
            backend_id: String::from_str(backend),
            backend_diagnostics: copy_strings(&messages),
        },
        file_size_bytes,
    );
    let absolute_thumbnail_path = if thumbnail_exists {
        Some(input.output.thumbnail_path)
    } else {
        None
    };
    EncodeOutput {
        recording_id: input.recording_id,
        media_path: input.output.media_path_relative,
        thumbnail_path: Some(input.output.thumbnail_path_relative),
        absolute_media_path: input.output.media_path,
        absolute_thumbnail_path,
        duration_ms: media_info.duration_ms,
        width: media_info.width,
        height: media_info.height,
        frame_rate: media_info.frame_rate,
        frame_count: media_info.frame_count,
        audio_included: media_info.audio_included,
        media_info,
        diagnostics: EncodeDiagnostics {
            backend: String::from_str(backend),
            commands: Vec::new(),
            messages,
        },
        warnings: input.warnings,
    }
}

/// A platform encoder.
pub trait RecordingEncoder {
    fn encode(&self, input: EncodeInput) -> Result<EncodeOutput, String>;
}

} // verus!

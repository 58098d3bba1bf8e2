//! What is known of an encoded recording: its size, timing and the backend that made it.
use vstd::prelude::*;

verus! {

/// The description of an encoded media file.
#[derive(Debug, Clone, PartialEq, Eq)]
pub struct MediaInfo {
    pub width: i64,
    pub height: i64,
    pub frame_rate: i64,
    pub frame_count: i64,
    pub duration_ms: Option<i64>,
    pub audio_included: bool,
    pub file_size_bytes: Option<u64>,
    pub backend_id: String,
    pub backend_diagnostics: Vec<String>,
}

/// What an encoder reports about what it encoded.
#[derive(Debug, Clone, PartialEq, Eq)]
pub struct MediaInfoSource {
    pub width: i64,
    pub height: i64,
    pub frame_rate: i64,
    pub frame_count: i64,
    pub audio_duration_ms: Option<i64>,
    pub duration_hint_ms: Option<i64>,
    pub audio_included: bool,
    pub backend_id: String,
    pub backend_diagnostics: Vec<String>,
}

/// The length of `frame_count` frames at `frame_rate` frames per second, in milliseconds,
/// rounded half up; none when either is not positive or the result does not fit.
pub open spec fn spec_duration_ms_from_frames(frame_count: int, frame_rate: int) -> Option<i64> {
    if frame_count <= 0 || frame_rate <= 0 {
        None
    } else {
        let ms = (frame_count * 1000 + frame_rate / 2) / frame_rate;
        if ms <= i64::MAX {
            Some(ms as i64)
        } else {
            None
        }
    }
}

pub fn duration_ms_from_frames(frame_count: i64, frame_rate: i64) -> (r: Option<i64>)
    ensures
        r == spec_duration_ms_from_frames(frame_count as int, frame_rate as int),
{
    if frame_count <= 0 || frame_rate <= 0 {
        return None;
    }
    let count = frame_count as u128;
    let rate = frame_rate as u128;
    assert(count * 1000 <= 0x7fff_ffff_ffff_ffff * 1000) by (nonlinear_arith)
        requires
            count <= 0x7fff_ffff_ffff_ffff,
    ;
    let ms = (count * 1000 + rate / 2) / rate;
    if ms <= 0x7fff_ffff_ffff_ffffu128 {
        Some(ms as i64)
    } else {
        None
    }
}

/// The larger of two optional durations, either when only one is known.
pub open spec fn spec_longest(a: Option<i64>, b: Option<i64>) -> Option<i64> {
    match (a, b) {
        (Some(x), Some(y)) => Some(if x >= y {
            x
        } else {
            y
        }),
        (Some(x), None) => Some(x),
        (None, Some(y)) => Some(y),
        (None, None) => None,
    }
}

/// The duration of an encoded recording: the longer of the video timeline and the audio
/// timeline, or the session's own duration when neither is known.
pub open spec fn spec_media_duration(source: MediaInfoSource) -> Option<i64> {
    match spec_longest(
        spec_duration_ms_from_frames(source.frame_count as int, source.frame_rate as int),
        source.audio_duration_ms,
    ) {
        Some(d) => Some(d),
        None => source.duration_hint_ms,
    }
}

/// The length of the video timeline is `frame_count * 1000 / frame_rate` milliseconds rounded
/// half up: the `video_ms` with `video_ms * frame_rate <= frame_count * 1000 + frame_rate / 2 <
/// (video_ms + 1) * frame_rate`. The encoded duration is then the longer of that and the
/// audio's length when the audio's is known, else the video's: it is at least each known
/// timeline and equals one of them.
pub proof fn lemma_duration_is_longest_timeline(source: MediaInfoSource, video_ms: int)
    requires
        source.frame_count > 0,
        source.frame_rate > 0,
        video_ms * source.frame_rate <= source.frame_count * 1000 + source.frame_rate / 2,
        source.frame_count * 1000 + source.frame_rate / 2 < video_ms * source.frame_rate
            + source.frame_rate,
        video_ms <= i64::MAX,
    ensures
        spec_media_duration(source) matches Some(d) && d >= video_ms && match source.audio_duration_ms {
            Some(a) => d >= a && (d == video_ms || d == a),
            None => d == video_ms,
        },
{
    let n = source.frame_count * 1000 + source.frame_rate / 2;
    let fr = source.frame_rate as int;
    let rem = n - video_ms * fr;
    vstd::arithmetic::div_mod::lemma_fundamental_div_mod_converse(n, fr, video_ms, rem);
    assert(spec_duration_ms_from_frames(source.frame_count as int, source.frame_rate as int)
        == Some(video_ms as i64));
}

/// With no video timeline (no frames, or no frame rate), the encoded duration is the audio's
/// length when known, else the session's own duration.
pub proof fn lemma_duration_without_video(source: MediaInfoSource)
    requires
        source.frame_count <= 0 || source.frame_rate <= 0,
    ensures
        spec_media_duration(source) == match source.audio_duration_ms {
            Some(a) => Some(a),
            None => source.duration_hint_ms,
        },
{
}

/// The media description of an encoded file, given the size the file was found to have.
pub fn derive_media_info(source: MediaInfoSource, file_size_bytes: Option<u64>) -> (r: MediaInfo)
    ensures
        r.width == source.width,
        r.height == source.height,
        r.frame_rate == source.frame_rate,
        r.frame_count == source.frame_count,
        r.duration_ms == spec_media_duration(source),
        r.audio_included == source.audio_included,
        r.file_size_bytes == file_size_bytes,
        r.backend_id == source.backend_id,
        r.backend_diagnostics == source.backend_diagnostics,
{
    let video_duration_ms = duration_ms_from_frames(source.frame_count, source.frame_rate);
    let longest = match (video_duration_ms, source.audio_duration_ms) {
        (Some(x), Some(y)) => Some(if x >= y {
            x
        } else {
            y
        }),
        (Some(x), None) => Some(x),
        (None, Some(y)) => Some(y),
        (None, None) => None,
    };
    let duration_ms = match longest {
        Some(d) => Some(d),
        None => source.duration_hint_ms,
    };
    MediaInfo {
        width: source.width,
        height: source.height,
        frame_rate: source.frame_rate,
        frame_count: source.frame_count,
        duration_ms,
        audio_included: source.audio_included,
        file_size_bytes,
        backend_id: source.backend_id,
        backend_diagnostics: source.backend_diagnostics,
    }
}

} // verus!

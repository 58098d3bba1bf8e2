//! Turning a finished capture into an encoded recording: the size the video is encoded at,
//! how frames are fitted to it, and what the encoder's report becomes.
use vstd::prelude::*;
use vstd::string::*;

use crate::media::chunked_video::{ChunkedVideoManifest, ChunkedVideoStatus};
use crate::media::encode::{EncodeCommandDiagnostics, EncodeOutput};
use crate::media::metadata::MediaInfo;
use crate::media::sidecar::{RawAudioMetadataError, RawVideoFrame};
use crate::media::thumbnail::BgraFrame;
use crate::recorder::{lemma_pixel_index_bounds, pixel_index};
use crate::media::encode::EncodeVideoFormat;
use crate::storage::sessions::{RecordingMediaFiles, RecordingSession};
use crate::paths::{join_path, spec_join_path};
use crate::media::encode::{EncodeAudioInput, EncodeInput, EncodeOutputPaths, EncodeVideoInput};
use crate::text::{decimal, i64_to_decimal, signed_decimal, string_views, u64_to_decimal};

verus! {

pub const STAGING_AUDIO_FILE_NAME: &'static str = "encoding-audio.raw";

pub const MICROPHONE_STAGING_AUDIO_FILE_NAME: &'static str = "encoding-microphone.raw";

pub const SOURCE_STAGING_AUDIO_FILE_NAME: &'static str = "encoding-source.raw";

/// The largest size a recording is encoded at.
pub const MAX_ENCODE_WIDTH: u32 = 1920;

pub const MAX_ENCODE_HEIGHT: u32 = 1080;

/// What encoding a recording produced, as reported to the user interface.
#[derive(Debug, Clone, PartialEq, Eq)]
pub struct EncodingResult {
    pub recording_id: String,
    pub media_path: String,
    pub thumbnail_path: Option<String>,
    pub absolute_media_path: String,
    pub absolute_thumbnail_path: Option<String>,
    pub duration_ms: Option<i64>,
    pub width: i64,
    pub height: i64,
    pub frame_rate: i64,
    pub frame_count: i64,
    pub audio_included: bool,
    pub media_info: MediaInfo,
    pub backend_id: String,
    pub backend_label: String,
    pub backend_commands: Vec<EncodeCommandDiagnostics>,
    pub backend_messages: Vec<String>,
    pub warnings: Vec<String>,
}

/// The encoding result for what a backend reported: its output, with the backend's id,
/// commands and messages taken from its diagnostics.
pub fn encoding_result_from_backend(output: EncodeOutput, backend_label: String) -> (r:
    EncodingResult)
    ensures
        r == (EncodingResult {
            recording_id: output.recording_id,
            media_path: output.media_path,
            thumbnail_path: output.thumbnail_path,
            absolute_media_path: output.absolute_media_path,
            absolute_thumbnail_path: output.absolute_thumbnail_path,
            duration_ms: output.duration_ms,
            width: output.width,
            height: output.height,
            frame_rate: output.frame_rate,
            frame_count: output.frame_count,
            audio_included: output.audio_included,
            media_info: output.media_info,
            backend_id: output.diagnostics.backend,
            backend_label,
            backend_commands: output.diagnostics.commands,
            backend_messages: output.diagnostics.messages,
            warnings: output.warnings,
        }),
{
    EncodingResult {
        recording_id: output.recording_id,
        media_path: output.media_path,
        thumbnail_path: output.thumbnail_path,
        absolute_media_path: output.absolute_media_path,
        absolute_thumbnail_path: output.absolute_thumbnail_path,
        duration_ms: output.duration_ms,
        width: output.width,
        height: output.height,
        frame_rate: output.frame_rate,
        frame_count: output.frame_count,
        audio_included: output.audio_included,
        media_info: output.media_info,
        backend_id: output.diagnostics.backend,
        backend_label,
        backend_commands: output.diagnostics.commands,
        backend_messages: output.diagnostics.messages,
        warnings: output.warnings,
    }
}

/// `numerator / denominator` rounded half up, at least one, saturated at `u32::MAX`; one when
/// the denominator is zero.
pub open spec fn spec_rounded_ratio_u32(numerator: int, denominator: int) -> int {
    if denominator == 0 {
        1
    } else {
        let q = (numerator + denominator / 2) / denominator;
        let at_least_one = if q < 1 {
            1
        } else {
            q
        };
        if at_least_one <= u32::MAX {
            at_least_one
        } else {
            u32::MAX as int
        }
    }
}

pub fn rounded_ratio_u32(numerator: u64, denominator: u64) -> (r: u32)
    requires
        numerator + denominator / 2 <= u64::MAX,
    ensures
        r == spec_rounded_ratio_u32(numerator as int, denominator as int),
{
    if denominator == 0 {
        return 1;
    }
    let q = (numerator + denominator / 2) / denominator;
    let at_least_one = if q < 1 {
        1
    } else {
        q
    };
    if at_least_one <= 4294967295u64 {
        at_least_one as u32
    } else {
        u32::MAX
    }
}

/// An encoded side made even (odd sides lose one pixel); sides of two or less stay, and zero
/// becomes one.
pub open spec fn spec_even_encode_dimension(value: int) -> int {
    if value <= 2 {
        if value < 1 {
            1
        } else {
            value
        }
    } else {
        value - value % 2
    }
}

pub fn even_encode_dimension(value: u32) -> (r: u32)
    ensures
        r == spec_even_encode_dimension(value as int),
{
    if value <= 2 {
        if value < 1 {
            1
        } else {
            value
        }
    } else {
        value - (value % 2)
    }
}

pub open spec fn spec_clamp(value: int, low: int, high: int) -> int {
    if value < low {
        low
    } else if value > high {
        high
    } else {
        value
    }
}

/// The size a capture of `width` by `height` is encoded at: its own size when it fits in
/// 1920x1080, otherwise scaled down to fit with its aspect ratio kept; both sides made even.
pub open spec fn spec_bounded_encode_dimensions(width: int, height: int) -> (int, int) {
    if width <= MAX_ENCODE_WIDTH && height <= MAX_ENCODE_HEIGHT {
        (spec_even_encode_dimension(width), spec_even_encode_dimension(height))
    } else {
        let (scaled_width, scaled_height) = if width * MAX_ENCODE_HEIGHT > MAX_ENCODE_WIDTH
            * height {
            (MAX_ENCODE_WIDTH as int, spec_rounded_ratio_u32(height * MAX_ENCODE_WIDTH, width))
        } else {
            (spec_rounded_ratio_u32(width * MAX_ENCODE_HEIGHT, height), MAX_ENCODE_HEIGHT as int)
        };
        (
            spec_even_encode_dimension(spec_clamp(scaled_width, 1, MAX_ENCODE_WIDTH as int)),
            spec_even_encode_dimension(spec_clamp(scaled_height, 1, MAX_ENCODE_HEIGHT as int)),
        )
    }
}

/// A rounded ratio `n / d` with `n <= bound * d` is between one and `bound`, and within one
/// `d` of `n` once multiplied back by `d`.
proof fn lemma_rounded_ratio_close(n: int, d: int, bound: int)
    requires
        0 <= n,
        0 < d,
        1 <= bound <= 1920,
        n <= bound * d,
    ensures
        1 <= spec_rounded_ratio_u32(n, d) <= bound,
        spec_rounded_ratio_u32(n, d) * d <= n + d,
        n <= spec_rounded_ratio_u32(n, d) * d + d,
{
    let x = n + d / 2;
    let q = x / d;
    vstd::arithmetic::div_mod::lemma_fundamental_div_mod(x, d);
    vstd::arithmetic::div_mod::lemma_mod_pos_bound(x, d);
    let m = x % d;
    assert(x == d * q + m);
    assert(q * d <= x < q * d + d) by (nonlinear_arith)
        requires
            x == d * q + m,
            0 <= m < d,
    ;
    assert(q <= bound) by (nonlinear_arith)
        requires
            q * d <= x,
            x == n + d / 2,
            n <= bound * d,
            0 < d,
            d / 2 < d,
    ;
    assert(q >= 0) by (nonlinear_arith)
        requires
            x < q * d + d,
            x >= 0,
            0 < d,
    ;
    if q < 1 {
        assert(q == 0);
        assert(q * d == 0) by (nonlinear_arith)
            requires
                q == 0,
        ;
        assert(x < d);
        assert(n < d);
    }
}

/// A capture larger than 1920x1080 is encoded with its aspect ratio kept. When it is wider
/// than 16:9 its width becomes 1920 and its height `height * 1920 / width`, up to rounding
/// and evening (so `r.1 * width` is within two widths of `height * 1920`); otherwise its
/// height becomes 1080 and its width `width * 1080 / height` up to the same. A capture that
/// fits keeps its size, each side made even by dropping at most one pixel. Every side is
/// even (or at most two) and within 1920x1080.
pub proof fn lemma_encode_dimensions_keep_aspect(width: int, height: int)
    requires
        0 <= width <= u32::MAX,
        0 <= height <= u32::MAX,
    ensures
        ({
            let r = spec_bounded_encode_dimensions(width, height);
            &&& 1 <= r.0 <= 1920 && 1 <= r.1 <= 1080
            &&& r.0 <= 2 || r.0 % 2 == 0
            &&& r.1 <= 2 || r.1 % 2 == 0
            &&& (width <= 1920 && height <= 1080) ==> {
                &&& (width >= 1 ==> width - 1 <= r.0 <= width)
                &&& (height >= 1 ==> height - 1 <= r.1 <= height)
            }
            &&& (!(width <= 1920 && height <= 1080) && width * 1080 > 1920 * height) ==> {
                &&& r.0 == 1920
                &&& height * 1920 - 2 * width <= r.1 * width <= height * 1920 + width
            }
            &&& (!(width <= 1920 && height <= 1080) && width * 1080 <= 1920 * height) ==> {
                &&& r.1 == 1080
                &&& width * 1080 - 2 * height <= r.0 * height <= width * 1080 + height
            }
        }),
{
    if !(width <= 1920 && height <= 1080) {
        if width * 1080 > 1920 * height {
            assert(width > 0);
            lemma_rounded_ratio_close(height * 1920, width, 1080);
            let q = spec_rounded_ratio_u32(height * 1920, width);
            let e = spec_even_encode_dimension(q);
            assert(q - 1 <= e <= q);
            assert(e * width <= q * width && (q - 1) * width <= e * width) by (nonlinear_arith)
                requires
                    q - 1 <= e <= q,
                    width > 0,
            ;
            assert((q - 1) * width == q * width - width) by (nonlinear_arith);
        } else {
            assert(height > 0);
            lemma_rounded_ratio_close(width * 1080, height, 1920);
            let q = spec_rounded_ratio_u32(width * 1080, height);
            let e = spec_even_encode_dimension(q);
            assert(q - 1 <= e <= q);
            assert(e * height <= q * height && (q - 1) * height <= e * height) by (nonlinear_arith)
                requires
                    q - 1 <= e <= q,
                    height > 0,
            ;
            assert((q - 1) * height == q * height - height) by (nonlinear_arith);
        }
    }
}

fn clamp_u32(value: u32, low: u32, high: u32) -> (r: u32)
    requires
        low <= high,
    ensures
        r == spec_clamp(value as int, low as int, high as int),
{
    if value < low {
        low
    } else if value > high {
        high
    } else {
        value
    }
}

/// The encoded size for a capture size; it never exceeds 1920x1080 and is never zero.
pub fn bounded_encode_dimensions(width: u32, height: u32) -> (r: (u32, u32))
    ensures
        (r.0 as int, r.1 as int) == spec_bounded_encode_dimensions(width as int, height as int),
        1 <= r.0 <= MAX_ENCODE_WIDTH || (width <= MAX_ENCODE_WIDTH && height <= MAX_ENCODE_HEIGHT
            && r.0 <= width),
        1 <= r.0,
        1 <= r.1,
        r.0 <= MAX_ENCODE_WIDTH,
        r.1 <= MAX_ENCODE_HEIGHT,
{
    if width <= MAX_ENCODE_WIDTH && height <= MAX_ENCODE_HEIGHT {
        return (even_encode_dimension(width), even_encode_dimension(height));
    }
    let source_width = width as u64;
    let source_height = height as u64;
    let max_width = MAX_ENCODE_WIDTH as u64;
    let max_height = MAX_ENCODE_HEIGHT as u64;
    assert(source_width * max_height <= 0xffff_ffff * 1080) by (nonlinear_arith)
        requires
            source_width <= 0xffff_ffff,
            max_height == 1080,
    ;
    assert(source_height * max_width <= 0xffff_ffff * 1920) by (nonlinear_arith)
        requires
            source_height <= 0xffff_ffff,
            max_width == 1920,
    ;
    let (scaled_width, scaled_height) = if source_width * max_height > max_width * source_height {
        (MAX_ENCODE_WIDTH, rounded_ratio_u32(source_height * max_width, source_width))
    } else {
        (rounded_ratio_u32(source_width * max_height, source_height), MAX_ENCODE_HEIGHT)
    };
    (
        even_encode_dimension(clamp_u32(scaled_width, 1, MAX_ENCODE_WIDTH)),
        even_encode_dimension(clamp_u32(scaled_height, 1, MAX_ENCODE_HEIGHT)),
    )
}

/// The byte size of a BGRA frame for encoding, or why it cannot be held.
pub fn bgra_byte_count(width: u32, height: u32) -> (r: Result<usize, String>)
    ensures
        match r {
            Ok(n) => n == width * height * 4,
            Err(e) => width * height * 4 > usize::MAX && e@ == "BGRA frame dimensions are too large."@,
        },
{
    let w = width as usize;
    let h = height as usize;
    match w.checked_mul(h) {
        Some(pixels) => match pixels.checked_mul(4) {
            Some(n) => Ok(n),
            None => Err(String::from_str("BGRA frame dimensions are too large.")),
        },
        None => {
            assert(w * h * 4 > usize::MAX) by (nonlinear_arith)
                requires
                    w * h > usize::MAX,
            ;
            Err(String::from_str("BGRA frame dimensions are too large."))
        },
    }
}

/// Byte `c` of pixel (`x`, `y`) of a frame resized by nearest neighbour.
pub open spec fn spec_resized_byte(
    source: Seq<u8>,
    source_width: int,
    source_height: int,
    output_width: int,
    output_height: int,
    x: int,
    y: int,
    c: int,
) -> u8 {
    source[pixel_index(
        source_width,
        x * source_width / output_width,
        y * source_height / output_height,
        c,
    )]
}

proof fn lemma_row_major_before(width: int, x: int, y: int, row: int, column: int)
    requires
        0 <= x < width,
        0 <= y,
        0 <= column <= width,
        y < row || (y == row && x < column),
    ensures
        y * width + x < row * width + column,
{
    if y < row {
        assert(y * width + x < row * width) by (nonlinear_arith)
            requires
                0 <= x < width,
                y < row,
        ;
    }
}

/// A BGRA frame resized by nearest neighbour: each output pixel takes the source pixel at
/// its position scaled down (rounded towards zero).
#[verifier::spinoff_prover]
#[verifier::rlimit(40)]
pub fn resize_bgra_nearest(
    source: &[u8],
    source_width: u32,
    source_height: u32,
    output_width: u32,
    output_height: u32,
) -> (r: Result<Vec<u8>, String>)
    requires
        (source_width > 0 && source_height > 0) || output_width == 0 || output_height == 0,
    ensures
        match r {
            Ok(output) => {
                &&& source@.len() == source_width * source_height * 4
                &&& output@.len() == output_width * output_height * 4
                &&& forall|x: int, y: int, c: int|
                    0 <= x < output_width && 0 <= y < output_height && 0 <= c < 4
                        ==> #[trigger] output@[pixel_index(output_width as int, x, y, c)]
                        == spec_resized_byte(
                        source@,
                        source_width as int,
                        source_height as int,
                        output_width as int,
                        output_height as int,
                        x,
                        y,
                        c,
                    )
            },
            Err(e) => if source_width * source_height * 4 > usize::MAX {
                e@ == "BGRA frame dimensions are too large."@
            } else if source@.len() != source_width * source_height * 4 {
                e@ == "Captured BGRA frame has "@ + decimal(source@.len()) + " bytes; expected "@
                    + decimal((source_width * source_height * 4) as nat) + " for "@ + decimal(
                    source_width as nat,
                ) + "x"@ + decimal(source_height as nat) + "."@
            } else {
                output_width * output_height * 4 > usize::MAX && e@
                    == "BGRA frame dimensions are too large."@
            },
        },
{
    let expected = match bgra_byte_count(source_width, source_height) {
        Ok(n) => n,
        Err(e) => {
            return Err(e);
        },
    };
    if source.len() != expected {
        return Err(
            String::from_str("Captured BGRA frame has ").concat(
                u64_to_decimal(source.len() as u64).as_str(),
            ).concat(" bytes; expected ").concat(u64_to_decimal(expected as u64).as_str()).concat(
                " for ",
            ).concat(u64_to_decimal(source_width as u64).as_str()).concat("x").concat(
                u64_to_decimal(source_height as u64).as_str(),
            ).concat("."),
        );
    }
    let output_len = match bgra_byte_count(output_width, output_height) {
        Ok(n) => n,
        Err(e) => {
            return Err(e);
        },
    };
    if output_width == 0 || output_height == 0 {
        assert(output_width * output_height * 4 == 0) by (nonlinear_arith)
            requires
                output_width == 0 || output_height == 0,
        ;
        return Ok(Vec::new());
    }
    let ghost sw = source_width as int;
    let ghost sh = source_height as int;
    let ghost ow = output_width as int;
    let ghost oh = output_height as int;
    let mut output: Vec<u8> = Vec::new();
    let mut target_y: u32 = 0;
    while target_y < output_height
        invariant
            sw == source_width && sh == source_height && ow == output_width && oh == output_height,
            sw > 0 && sh > 0 && ow > 0,
            source@.len() == sw * sh * 4,
            source@.len() <= usize::MAX,
            output_len == ow * oh * 4,
            target_y <= oh,
            output@.len() == (target_y * ow) * 4,
            forall|x: int, y: int, c: int|
                0 <= x < ow && 0 <= y < target_y && 0 <= c < 4 ==> #[trigger] output@[pixel_index(
                    ow,
                    x,
                    y,
                    c,
                )] == spec_resized_byte(source@, sw, sh, ow, oh, x, y, c),
        decreases output_height - target_y,
    {
        assert(target_y * sh <= 0xffff_ffff * 0xffff_ffff) by (nonlinear_arith)
            requires
                target_y <= 0xffff_ffff,
                sh <= 0xffff_ffff,
        ;
        let source_y = (target_y as u64 * source_height as u64) / output_height as u64;
        proof {
            assert(target_y * sh < oh * sh) by (nonlinear_arith)
                requires
                    target_y < oh,
                    sh > 0,
            ;
            vstd::arithmetic::div_mod::lemma_multiply_divide_lt(target_y * sh, oh, sh);
        }
        let mut target_x: u32 = 0;
        while target_x < output_width
            invariant
                sw == source_width && sh == source_height && ow == output_width && oh
                    == output_height,
                sw > 0 && sh > 0,
                source@.len() == sw * sh * 4,
                source@.len() <= usize::MAX,
                output_len == ow * oh * 4,
                target_y < oh,
                target_x <= ow,
                source_y == target_y * sh / oh,
                source_y < sh,
                output@.len() == (target_y * ow + target_x) * 4,
                forall|x: int, y: int, c: int|
                    0 <= x < ow && 0 <= y && 0 <= c < 4 && (y < target_y || (y == target_y && x
                        < target_x)) ==> #[trigger] output@[pixel_index(ow, x, y, c)]
                        == spec_resized_byte(source@, sw, sh, ow, oh, x, y, c),
            decreases output_width - target_x,
        {
            assert(target_x * sw <= 0xffff_ffff * 0xffff_ffff) by (nonlinear_arith)
                requires
                    target_x <= 0xffff_ffff,
                    sw <= 0xffff_ffff,
            ;
            let source_x = (target_x as u64 * source_width as u64) / output_width as u64;
            proof {
                assert(target_x * sw < ow * sw) by (nonlinear_arith)
                    requires
                        target_x < ow,
                        sw > 0,
                ;
                vstd::arithmetic::div_mod::lemma_multiply_divide_lt(target_x * sw, ow, sw);
                lemma_pixel_index_bounds(sw, sh, source_x as int, source_y as int, 3);
                lemma_pixel_index_bounds(ow, oh, target_x as int, target_y as int, 3);
                assert(source_y * sw + source_x < sw * sh);
            }
            let source_index = ((source_y * source_width as u64 + source_x) * 4) as usize;
            let ghost before = output@;
            output.push(source[source_index]);
            output.push(source[source_index + 1]);
            output.push(source[source_index + 2]);
            output.push(source[source_index + 3]);
            proof {
                assert(before.len() == pixel_index(ow, target_x as int, target_y as int, 0));
                assert forall|x: int, y: int, c: int|
                    0 <= x < ow && 0 <= y && 0 <= c < 4 && (y < target_y || (y == target_y && x
                        < target_x + 1)) implies #[trigger] output@[pixel_index(ow, x, y, c)]
                    == spec_resized_byte(source@, sw, sh, ow, oh, x, y, c) by {
                    if y == target_y && x == target_x {
                        assert(pixel_index(ow, x, y, c) == before.len() + c);
                    } else {
                        lemma_row_major_before(ow, x, y, target_y as int, target_x as int);
                        assert(pixel_index(ow, x, y, c) < before.len());
                        assert(output@[pixel_index(ow, x, y, c)] == before[pixel_index(
                            ow,
                            x,
                            y,
                            c,
                        )]);
                    }
                }
            }
            target_x = target_x + 1;
        }
        assert((target_y * ow + ow) * 4 == ((target_y + 1) * ow) * 4) by (nonlinear_arith);
        target_y = target_y + 1;
    }
    assert(output@.len() == ow * oh * 4) by (nonlinear_arith)
        requires
            output@.len() == (oh * ow) * 4,
    ;
    Ok(output)
}

/// The warning given when a stream's recorded format cannot be used.
pub open spec fn spec_audio_metadata_warning(label: Seq<char>, error: RawAudioMetadataError) -> Seq<
    char,
> {
    match error {
        RawAudioMetadataError::MissingSampleRate => label
            + " sample rate was missing; encoded without this source."@,
        RawAudioMetadataError::MissingChannels => label
            + " channel count was missing; encoded without this source."@,
        _ => label + " sample format was unsupported by the encoder; encoded without this source."@,
    }
}

pub fn audio_metadata_warning(label: &str, error: RawAudioMetadataError) -> (r: String)
    ensures
        r@ == spec_audio_metadata_warning(label@, error),
{
    match error {
        RawAudioMetadataError::MissingSampleRate => label.to_owned().concat(
            " sample rate was missing; encoded without this source.",
        ),
        RawAudioMetadataError::MissingChannels => label.to_owned().concat(
            " channel count was missing; encoded without this source.",
        ),
        RawAudioMetadataError::MissingSampleFormat
        | RawAudioMetadataError::UnsupportedSampleFormat => label.to_owned().concat(
            " sample format was unsupported by the encoder; encoded without this source.",
        ),
    }
}

/// What became of one requested audio capture on its way into the encoder's mix.
#[derive(Debug, Clone)]
pub enum AudioSourceOutcome {
    /// The capture file is not there.
    Missing,
    /// The recorded format of the stream cannot be used.
    UnusableMetadata(RawAudioMetadataError),
    /// The capture could not be opened or read; the reader's message.
    ReadFailed(String),
    /// The samples could not be converted for mixing; the converter's message.
    PrepareFailed(String),
    /// The capture holds no samples.
    Empty,
    /// Every sample is silence.
    Silent,
    /// The capture joins the mix.
    Usable,
}

/// The warning recorded for a capture that is left out of the mix, or none for one that joins it.
pub open spec fn spec_audio_source_warning(label: Seq<char>, outcome: AudioSourceOutcome) -> Option<
    Seq<char>,
> {
    match outcome {
        AudioSourceOutcome::Missing => Some(
            label + " was requested but the capture file was missing; encoded without this source."@,
        ),
        AudioSourceOutcome::UnusableMetadata(error) => Some(
            spec_audio_metadata_warning(label, error),
        ),
        AudioSourceOutcome::ReadFailed(error) => Some(
            "Unable to read captured "@ + label + ": "@ + error@
                + "; encoded without this source."@,
        ),
        AudioSourceOutcome::PrepareFailed(error) => Some(
            "Unable to prepare captured "@ + label + ": "@ + error@
                + "; encoded without this source."@,
        ),
        AudioSourceOutcome::Empty => Some(
            label + " capture had no audio samples; encoded without this source."@,
        ),
        AudioSourceOutcome::Silent => Some(
            label + " capture contained only silence; encoded without this source."@,
        ),
        AudioSourceOutcome::Usable => None,
    }
}

/// Decides whether a requested capture joins the mix: every capture that is left out is
/// named in exactly one warning, and a usable one in none.
pub fn audio_source_warning(label: &str, outcome: &AudioSourceOutcome) -> (r: Option<String>)
    ensures
        r.is_none() <==> outcome is Usable,
        r matches Some(w) ==> spec_audio_source_warning(label@, *outcome) == Some(w@),
{
    match outcome {
        AudioSourceOutcome::Missing => Some(
            label.to_owned().concat(
                " was requested but the capture file was missing; encoded without this source.",
            ),
        ),
        AudioSourceOutcome::UnusableMetadata(error) => Some(audio_metadata_warning(label, *error)),
        AudioSourceOutcome::ReadFailed(error) => {
            let w = "Unable to read captured ".to_owned().concat(label).concat(": ").concat(
                error.as_str(),
            ).concat("; encoded without this source.");
            Some(w)
        },
        AudioSourceOutcome::PrepareFailed(error) => {
            let w = "Unable to prepare captured ".to_owned().concat(label).concat(": ").concat(
                error.as_str(),
            ).concat("; encoded without this source.");
            Some(w)
        },
        AudioSourceOutcome::Empty => Some(
            label.to_owned().concat(" capture had no audio samples; encoded without this source."),
        ),
        AudioSourceOutcome::Silent => Some(
            label.to_owned().concat(" capture contained only silence; encoded without this source."),
        ),
        AudioSourceOutcome::Usable => None,
    }
}


/// A session that can be encoded: one exists, and it captured frames.
pub fn require_encodable_session(session: Option<RecordingSession>) -> (r: Result<
    RecordingSession,
    String,
>)
    ensures
        match session {
            None => r matches Err(e) && e@ == "Recording session metadata is required before encoding."@,
            Some(s) => if s.frame_count <= 0 {
                r matches Err(e) && e@ == "Recording has no captured frames to encode."@
            } else {
                r == Ok::<RecordingSession, String>(s)
            },
        },
{
    match session {
        None => Err(String::from_str("Recording session metadata is required before encoding.")),
        Some(s) => if s.frame_count <= 0 {
            Err(String::from_str("Recording has no captured frames to encode."))
        } else {
            Ok(s)
        },
    }
}

/// The video handed to the encoder.
#[derive(Debug, Clone, PartialEq, Eq)]
pub struct PreparedVideo {
    pub path: String,
    pub format: EncodeVideoFormat,
    pub temporary_path: Option<String>,
    pub width: i64,
    pub height: i64,
    pub frame_count: i64,
    pub thumbnail_frame: BgraFrame,
}

pub const INTERRUPTED_CHUNKS_WARNING: &'static str =
    "Encoding recovered finalized video chunks from an interrupted recording manifest.";

/// The prepared video of a chunked capture, used in place; a manifest that was not completed
/// adds a warning that its finished chunks were recovered.
pub fn prepared_chunked_video(
    source_path: String,
    manifest: &ChunkedVideoManifest,
    thumbnail_frame: BgraFrame,
    warnings: &mut Vec<String>,
) -> (r: Result<PreparedVideo, String>)
    ensures
        manifest.status != ChunkedVideoStatus::Completed ==> string_views(final(warnings)@)
            == string_views(old(warnings)@).push(INTERRUPTED_CHUNKS_WARNING@),
        manifest.status == ChunkedVideoStatus::Completed ==> final(warnings)@ == old(warnings)@,
        match r {
            Ok(video) => manifest.frame_count <= i64::MAX && video == (PreparedVideo {
                path: source_path,
                format: EncodeVideoFormat::ChunkedH264Segments,
                temporary_path: None,
                width: manifest.width as i64,
                height: manifest.height as i64,
                frame_count: manifest.frame_count as i64,
                thumbnail_frame,
            }),
            Err(e) => manifest.frame_count > i64::MAX && e@
                == "Chunked video frame count is too large."@,
        },
{
    if manifest.status != ChunkedVideoStatus::Completed {
        warnings.push(String::from_str(INTERRUPTED_CHUNKS_WARNING));
        assert(string_views(warnings@) =~= string_views(old(warnings)@).push(
            INTERRUPTED_CHUNKS_WARNING@,
        ));
    }
    if manifest.frame_count > 0x7fff_ffff_ffff_ffffu64 {
        return Err(String::from_str("Chunked video frame count is too large."));
    }
    Ok(
        PreparedVideo {
            path: source_path,
            format: EncodeVideoFormat::ChunkedH264Segments,
            temporary_path: None,
            width: manifest.width as i64,
            height: manifest.height as i64,
            frame_count: manifest.frame_count as i64,
            thumbnail_frame,
        },
    )
}

/// The frames of a raw capture as they are turned into encoder input, one at a time: the
/// capture size (from the session, else the first frame), the encoded size (from the first
/// frame), the thumbnail (the first frame as encoded) and the number of frames so far.
#[derive(Debug, Clone, PartialEq, Eq)]
pub struct VideoPreparation {
    pub width: i64,
    pub height: i64,
    pub output_dimensions: Option<(u32, u32)>,
    pub thumbnail_frame: Option<BgraFrame>,
    pub frame_count: i64,
}

pub open spec fn dimension_change_message(width: i64, height: i64, frame_width: i64, frame_height: i64) -> Seq<
    char,
> {
    "Captured frame dimensions changed from "@ + signed_decimal(width as int) + "x"@
        + signed_decimal(height as int) + " to "@ + signed_decimal(frame_width as int) + "x"@
        + signed_decimal(frame_height as int) + "."@
}

impl VideoPreparation {
    pub fn new(expected_width: Option<i64>, expected_height: Option<i64>) -> (r: VideoPreparation)
        ensures
            r.width == (match expected_width {
                Some(w) => w,
                None => 0,
            }),
            r.height == (match expected_height {
                Some(h) => h,
                None => 0,
            }),
            r.output_dimensions is None,
            r.thumbnail_frame is None,
            r.frame_count == 0,
    {
        VideoPreparation {
            width: match expected_width {
                Some(w) => w,
                None => 0,
            },
            height: match expected_height {
                Some(h) => h,
                None => 0,
            },
            output_dimensions: None,
            thumbnail_frame: None,
            frame_count: 0,
        }
    }

    /// The encoder input bytes for the next frame: the frame at the encoded size (resized by
    /// nearest neighbour when its size differs). A frame of another size than the capture's is
    /// refused.
    pub fn accept_frame(&mut self, frame: RawVideoFrame) -> (r: Result<Vec<u8>, String>)
        requires
            frame.width > 0,
            frame.height > 0,
            frame.bytes@.len() == frame.width * frame.height * 4,
            old(self).frame_count < i64::MAX,
        ensures
            ({
                let width = if old(self).width == 0 {
                    frame.width as i64
                } else {
                    old(self).width
                };
                let height = if old(self).height == 0 {
                    frame.height as i64
                } else {
                    old(self).height
                };
                let dims = match old(self).output_dimensions {
                    Some(d) => d,
                    None => {
                        let (w, h) = spec_bounded_encode_dimensions(
                            frame.width as int,
                            frame.height as int,
                        );
                        (w as u32, h as u32)
                    },
                };
                &&& final(self).width == width
                &&& final(self).height == height
                &&& if frame.width != width || frame.height != height {
                    &&& r matches Err(e) && e@ == dimension_change_message(
                        width,
                        height,
                        frame.width as i64,
                        frame.height as i64,
                    )
                    &&& final(self).output_dimensions == old(self).output_dimensions
                    &&& final(self).frame_count == old(self).frame_count
                    &&& final(self).thumbnail_frame == old(self).thumbnail_frame
                } else {
                    &&& final(self).output_dimensions == Some(dims)
                    &&& match r {
                        Ok(bytes) => {
                            &&& final(self).frame_count == old(self).frame_count + 1
                            &&& bytes@.len() == dims.0 * dims.1 * 4
                            &&& (frame.width == dims.0 && frame.height == dims.1 ==> bytes@
                                == frame.bytes@)
                            &&& (!(frame.width == dims.0 && frame.height == dims.1) ==> forall|
                                x: int,
                                y: int,
                                c: int,
                            |
                                0 <= x < dims.0 && 0 <= y < dims.1 && 0 <= c < 4
                                    ==> #[trigger] bytes@[pixel_index(dims.0 as int, x, y, c)]
                                    == spec_resized_byte(
                                    frame.bytes@,
                                    frame.width as int,
                                    frame.height as int,
                                    dims.0 as int,
                                    dims.1 as int,
                                    x,
                                    y,
                                    c,
                                ))
                            &&& match old(self).thumbnail_frame {
                                Some(t) => final(self).thumbnail_frame == Some(t),
                                None => final(self).thumbnail_frame matches Some(t) && t.width
                                    == dims.0 && t.height == dims.1 && t.bytes@ == bytes@,
                            }
                        },
                        Err(_) => final(self).frame_count == old(self).frame_count
                            && final(self).thumbnail_frame == old(self).thumbnail_frame,
                    }
                }
            }),
    {
        let frame_width = frame.width as i64;
        let frame_height = frame.height as i64;
        if self.width == 0 {
            self.width = frame_width;
        }
        if self.height == 0 {
            self.height = frame_height;
        }
        if frame_width != self.width || frame_height != self.height {
            return Err(
                String::from_str("Captured frame dimensions changed from ").concat(
                    i64_to_decimal(self.width).as_str(),
                ).concat("x").concat(i64_to_decimal(self.height).as_str()).concat(" to ").concat(
                    i64_to_decimal(frame_width).as_str(),
                ).concat("x").concat(i64_to_decimal(frame_height).as_str()).concat("."),
            );
        }
        let (output_width, output_height) = match self.output_dimensions {
            Some(d) => d,
            None => {
                let d = bounded_encode_dimensions(frame.width, frame.height);
                self.output_dimensions = Some(d);
                d
            },
        };
        let output_bytes = if frame.width == output_width && frame.height == output_height {
            frame.bytes
        } else {
            match resize_bgra_nearest(
                frame.bytes.as_slice(),
                frame.width,
                frame.height,
                output_width,
                output_height,
            ) {
                Ok(bytes) => bytes,
                Err(e) => {
                    return Err(e);
                },
            }
        };
        if self.thumbnail_frame.is_none() {
            self.thumbnail_frame = Some(
                BgraFrame {
                    width: output_width,
                    height: output_height,
                    bytes: output_bytes.clone(),
                },
            );
        }
        self.frame_count = self.frame_count + 1;
        Ok(output_bytes)
    }

    /// The encoded size, frame count and thumbnail once every frame was accepted; a capture
    /// without frames is refused.
    pub fn finish(self) -> (r: Result<(i64, i64, i64, BgraFrame), String>)
        ensures
            match r {
                Ok((width, height, count, thumbnail)) => {
                    &&& self.frame_count != 0
                    &&& self.output_dimensions matches Some(d) && width == d.0 && height == d.1
                    &&& count == self.frame_count
                    &&& self.thumbnail_frame == Some(thumbnail)
                },
                Err(e) => if self.frame_count == 0 || self.output_dimensions is None {
                    e@ == "Captured screen frame file had no frames."@
                } else {
                    self.thumbnail_frame is None && e@
                        == "Captured screen frame file had no thumbnail frame."@
                },
            },
    {
        if self.frame_count == 0 {
            return Err(String::from_str("Captured screen frame file had no frames."));
        }
        let (output_width, output_height) = match self.output_dimensions {
            Some(d) => d,
            None => {
                return Err(String::from_str("Captured screen frame file had no frames."));
            },
        };
        match self.thumbnail_frame {
            Some(thumbnail) => Ok(
                (output_width as i64, output_height as i64, self.frame_count, thumbnail),
            ),
            None => Err(String::from_str("Captured screen frame file had no thumbnail frame.")),
        }
    }
}

pub const STAGING_VIDEO_FILE_NAME: &'static str = "encoding-video.bgra";

pub const STAGING_MEDIA_FILE_NAME: &'static str = "recording.tmp.mp4";

pub const STAGING_THUMBNAIL_FILE_NAME: &'static str = "thumbnail.tmp.jpg";

/// The files an encoding writes in the recording directory before the results are moved in
/// place.
#[derive(Debug, Clone, PartialEq, Eq)]
pub struct EncodingStagingPaths {
    pub video: String,
    pub audio: String,
    pub microphone_audio: String,
    pub source_audio: String,
    pub media: String,
    pub thumbnail: String,
}

pub fn encoding_staging_paths(media_files: &RecordingMediaFiles) -> (r: EncodingStagingPaths)
    ensures
        r.video@ == spec_join_path(media_files.recording_directory@, STAGING_VIDEO_FILE_NAME@),
        r.audio@ == spec_join_path(media_files.recording_directory@, STAGING_AUDIO_FILE_NAME@),
        r.microphone_audio@ == spec_join_path(
            media_files.recording_directory@,
            MICROPHONE_STAGING_AUDIO_FILE_NAME@,
        ),
        r.source_audio@ == spec_join_path(
            media_files.recording_directory@,
            SOURCE_STAGING_AUDIO_FILE_NAME@,
        ),
        r.media@ == spec_join_path(media_files.recording_directory@, STAGING_MEDIA_FILE_NAME@),
        r.thumbnail@ == spec_join_path(
            media_files.recording_directory@,
            STAGING_THUMBNAIL_FILE_NAME@,
        ),
{
    let dir = media_files.recording_directory.as_str();
    EncodingStagingPaths {
        video: join_path(dir, STAGING_VIDEO_FILE_NAME),
        audio: join_path(dir, STAGING_AUDIO_FILE_NAME),
        microphone_audio: join_path(dir, MICROPHONE_STAGING_AUDIO_FILE_NAME),
        source_audio: join_path(dir, SOURCE_STAGING_AUDIO_FILE_NAME),
        media: join_path(dir, STAGING_MEDIA_FILE_NAME),
        thumbnail: join_path(dir, STAGING_THUMBNAIL_FILE_NAME),
    }
}

/// The prepared video of a raw capture: the staged BGRA file, removed after encoding, with
/// the size, frame count and thumbnail the frames gave.
pub fn prepared_raw_video(
    staging_path: String,
    width: i64,
    height: i64,
    frame_count: i64,
    thumbnail_frame: BgraFrame,
) -> (r: PreparedVideo)
    ensures
        r == (PreparedVideo {
            path: staging_path,
            format: EncodeVideoFormat::RawBgra,
            temporary_path: Some(staging_path),
            width,
            height,
            frame_count,
            thumbnail_frame,
        }),
{
    PreparedVideo {
        path: staging_path.clone(),
        format: EncodeVideoFormat::RawBgra,
        temporary_path: Some(staging_path),
        width,
        height,
        frame_count,
        thumbnail_frame,
    }
}

/// What the encoder is given for a recording: the prepared video at the session's frame
/// rate, the prepared audio, the final and staged output paths, the session's duration as a
/// hint, and the warnings gathered while preparing.
pub fn encode_input_for_recording(
    recording_id: &str,
    session: &RecordingSession,
    media_files: RecordingMediaFiles,
    staging: &EncodingStagingPaths,
    video: PreparedVideo,
    audio_inputs: Vec<EncodeAudioInput>,
    warnings: Vec<String>,
) -> (r: EncodeInput)
    ensures
        r.recording_id@ == recording_id@,
        r.video == (EncodeVideoInput {
            path: video.path,
            format: video.format,
            width: video.width,
            height: video.height,
            frame_rate: session.frame_rate,
            frame_count: video.frame_count,
            thumbnail_frame: video.thumbnail_frame,
        }),
        r.audio_inputs == audio_inputs,
        r.output == (EncodeOutputPaths {
            media_path: media_files.media_path,
            media_path_relative: media_files.media_path_relative,
            thumbnail_path: media_files.thumbnail_path,
            thumbnail_path_relative: media_files.thumbnail_path_relative,
            staging_media_path: staging.media,
            staging_thumbnail_path: staging.thumbnail,
        }),
        r.duration_hint_ms == session.duration_ms,
        r.warnings == warnings,
{
    EncodeInput {
        recording_id: recording_id.to_owned(),
        video: EncodeVideoInput {
            path: video.path,
            format: video.format,
            width: video.width,
            height: video.height,
            frame_rate: session.frame_rate,
            frame_count: video.frame_count,
            thumbnail_frame: video.thumbnail_frame,
        },
        audio_inputs,
        output: EncodeOutputPaths {
            media_path: media_files.media_path,
            media_path_relative: media_files.media_path_relative,
            thumbnail_path: media_files.thumbnail_path,
            thumbnail_path_relative: media_files.thumbnail_path_relative,
            staging_media_path: staging.media.clone(),
            staging_thumbnail_path: staging.thumbnail.clone(),
        },
        duration_hint_ms: session.duration_ms,
        warnings,
    }
}

} // verus!

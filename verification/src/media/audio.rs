//! Facts about captured PCM audio that the audio preparation relies on: which sample formats
//! are accepted, how large a sample is, and how time maps to frames.
use vstd::prelude::*;
use vstd::string::*;

use crate::text::str_equals;

verus! {

pub const FINAL_ENCODE_SAMPLE_RATE: i64 = 48_000;

pub const FINAL_ENCODE_CHANNELS: i64 = 2;

pub const FINAL_ENCODE_SAMPLE_FORMAT: &'static str = "f32";

pub const TRANSCRIPTION_SAMPLE_RATE: i64 = 16_000;

/// The byte size of one sample of a supported PCM format.
pub open spec fn spec_pcm_sample_size(format: Seq<char>) -> Option<usize> {
    if format == "i8"@ || format == "u8"@ {
        Some(1)
    } else if format == "i16"@ || format == "u16"@ {
        Some(2)
    } else if format == "i24"@ || format == "u24"@ || format == "i32"@ || format == "u32"@
        || format == "f32"@ {
        Some(4)
    } else if format == "f64"@ {
        Some(8)
    } else {
        None
    }
}

/// Captured audio may be 8, 16, 24 or 32-bit integers (signed or not) or 32 or 64-bit floats.
pub open spec fn spec_supported_pcm_sample_format(format: Seq<char>) -> bool {
    spec_pcm_sample_size(format) is Some
}

pub fn pcm_sample_size(sample_format: &str) -> (r: Option<usize>)
    ensures
        r == spec_pcm_sample_size(sample_format@),
{
    if str_equals(sample_format, "i8") || str_equals(sample_format, "u8") {
        Some(1)
    } else if str_equals(sample_format, "i16") || str_equals(sample_format, "u16") {
        Some(2)
    } else if str_equals(sample_format, "i24") || str_equals(sample_format, "u24") || str_equals(
        sample_format,
        "i32",
    ) || str_equals(sample_format, "u32") || str_equals(sample_format, "f32") {
        Some(4)
    } else if str_equals(sample_format, "f64") {
        Some(8)
    } else {
        None
    }
}

pub fn is_supported_pcm_sample_format(sample_format: &str) -> (r: bool)
    ensures
        r == spec_supported_pcm_sample_format(sample_format@),
{
    pcm_sample_size(sample_format).is_some()
}

/// The frame at which audio recorded `elapsed_ms` after the start begins, rounded half up.
pub open spec fn spec_timestamp_frame(elapsed_ms: int, sample_rate: int) -> int {
    (elapsed_ms * sample_rate + 500) / 1000
}

pub fn timestamp_to_frame(elapsed_ms: u64, sample_rate: usize) -> (r: Result<usize, String>)
    ensures
        match r {
            Ok(frame) => sample_rate > 0 && frame == spec_timestamp_frame(
                elapsed_ms as int,
                sample_rate as int,
            ),
            Err(e) => if sample_rate == 0 {
                e@ == "Audio sample rate is invalid."@
            } else {
                spec_timestamp_frame(elapsed_ms as int, sample_rate as int) > usize::MAX && e@
                    == "Audio timeline offset is too large."@
            },
        },
{
    if sample_rate == 0 {
        return Err(String::from_str("Audio sample rate is invalid."));
    }
    let ms = elapsed_ms as u128;
    let rate = sample_rate as u128;
    assert(ms * rate <= 0xffff_ffff_ffff_ffff * 0xffff_ffff_ffff_ffff) by (nonlinear_arith)
        requires
            ms <= 0xffff_ffff_ffff_ffff,
            rate <= 0xffff_ffff_ffff_ffff,
    ;
    let frame = (ms * rate + 500) / 1000;
    if frame > usize::MAX as u128 {
        return Err(String::from_str("Audio timeline offset is too large."));
    }
    Ok(frame as usize)
}

/// The frame count of audio resampled from `input_rate` to `output_rate`, rounded half up.
pub open spec fn spec_resampled_frame_count(input_frames: int, input_rate: int, output_rate: int) -> int {
    (input_frames * output_rate + input_rate / 2) / input_rate
}

pub fn rounded_resampled_frame_count(input_frames: usize, input_rate: i64, output_rate: i64) -> (r:
    Result<usize, String>)
    requires
        input_rate != 0,
    ensures
        match r {
            Ok(frames) => input_rate > 0 && output_rate >= 0 && frames
                == spec_resampled_frame_count(
                input_frames as int,
                input_rate as int,
                output_rate as int,
            ),
            Err(e) => if input_rate < 0 || output_rate < 0 {
                e@ == "Audio sample rate is invalid."@
            } else {
                spec_resampled_frame_count(input_frames as int, input_rate as int, output_rate as int)
                    > usize::MAX && e@ == "Resampled audio is too large."@
            },
        },
{
    if input_rate < 0 || output_rate < 0 {
        return Err(String::from_str("Audio sample rate is invalid."));
    }
    let frames_in = input_frames as u128;
    let rate_in = input_rate as u128;
    let rate_out = output_rate as u128;
    assert(frames_in * rate_out <= 0xffff_ffff_ffff_ffff * 0x7fff_ffff_ffff_ffff) by (nonlinear_arith)
        requires
            frames_in <= 0xffff_ffff_ffff_ffff,
            rate_out <= 0x7fff_ffff_ffff_ffff,
    ;
    let frames = (frames_in * rate_out + rate_in / 2) / rate_in;
    if frames > usize::MAX as u128 {
        return Err(String::from_str("Resampled audio is too large."));
    }
    Ok(frames as usize)
}

} // verus!

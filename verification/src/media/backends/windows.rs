//! The Windows Media Foundation encoder: what it accepts, and the pixel and timing arithmetic
//! it does before handing frames to Media Foundation.
use vstd::prelude::*;
use vstd::string::*;

use crate::media::encode::{EncodeAudioInput, EncodeInput, EncodeVideoFormat};
use crate::platform::PlatformBackend;
use crate::text::str_equals;
use crate::recorder::{lemma_pixel_index_bounds, pixel_index};
use crate::text::{decimal, u64_to_decimal};

verus! {

pub const BACKEND_NAME: &'static str = "windows-media-foundation";

pub const BACKEND_LABEL: &'static str = "native-windows-media-foundation";

/// Media Foundation counts time in units of 100 nanoseconds.
pub const HNS_PER_SECOND: i64 = 10_000_000;

/// The Windows encoder; it exists only in Windows builds.
#[derive(Debug, Clone, Copy, PartialEq, Eq, Structural)]
pub struct WindowsRecordingEncoder {}

impl WindowsRecordingEncoder {
    pub fn new(platform: PlatformBackend) -> (r: Result<WindowsRecordingEncoder, String>)
        ensures
            r is Ok <==> platform == PlatformBackend::Windows,
            r matches Err(e) ==> e@ == "Native Windows encoder is only available on Windows."@,
    {
        if platform == PlatformBackend::Windows {
            Ok(WindowsRecordingEncoder {  })
        } else {
            Err(String::from_str("Native Windows encoder is only available on Windows."))
        }
    }

    pub fn backend_label(&self) -> (r: String)
        ensures
            r@ == BACKEND_LABEL@,
    {
        String::from_str(BACKEND_LABEL)
    }
}

pub open spec fn spec_clamp_u8(value: int) -> u8 {
    if value < 0 {
        0
    } else if value > 255 {
        255
    } else {
        value as u8
    }
}

/// BT.601 luma of an RGB colour (integer approximation, arithmetic shift by 8).
pub open spec fn spec_y_from_rgb(r: int, g: int, b: int) -> u8 {
    spec_clamp_u8((66 * r + 129 * g + 25 * b + 128) / 256 + 16)
}

pub open spec fn spec_u_from_rgb(r: int, g: int, b: int) -> u8 {
    spec_clamp_u8((-38 * r - 74 * g + 112 * b + 128) / 256 + 128)
}

pub open spec fn spec_v_from_rgb(r: int, g: int, b: int) -> u8 {
    spec_clamp_u8((112 * r - 94 * g - 18 * b + 128) / 256 + 128)
}

pub fn clamp_u8(value: i32) -> (r: u8)
    ensures
        r == spec_clamp_u8(value as int),
{
    if value < 0 {
        0
    } else if value > 255 {
        255
    } else {
        value as u8
    }
}

/// `value >> 8` for values of at least -65536, computed on a non-negative number.
fn shift_right_8(value: i32) -> (r: i32)
    requires
        -65536 <= value <= 1_000_000,
    ensures
        r == value as int / 256,
{
    let shifted = (value + 65536) / 256;
    assert(shifted == (value + 65536) / 256);
    assert((value + 65536) / 256 == value / 256 + 256);
    shifted - 256
}

pub fn y_from_rgb(r: i32, g: i32, b: i32) -> (y: u8)
    requires
        0 <= r <= 255,
        0 <= g <= 255,
        0 <= b <= 255,
    ensures
        y == spec_y_from_rgb(r as int, g as int, b as int),
{
    clamp_u8(shift_right_8(66 * r + 129 * g + 25 * b + 128) + 16)
}

pub fn u_from_rgb(r: i32, g: i32, b: i32) -> (u: u8)
    requires
        0 <= r <= 255,
        0 <= g <= 255,
        0 <= b <= 255,
    ensures
        u == spec_u_from_rgb(r as int, g as int, b as int),
{
    clamp_u8(shift_right_8(112 * b + 128 - 38 * r - 74 * g) + 128)
}

pub fn v_from_rgb(r: i32, g: i32, b: i32) -> (v: u8)
    requires
        0 <= r <= 255,
        0 <= g <= 255,
        0 <= b <= 255,
    ensures
        v == spec_v_from_rgb(r as int, g as int, b as int),
{
    clamp_u8(shift_right_8(112 * r + 128 - 94 * g - 18 * b) + 128)
}

pub const NV12_DIMENSIONS_ERROR: &'static str =
    "NV12 fallback requires positive even video dimensions.";

pub fn validate_nv12_dimensions(width: i64, height: i64) -> (r: Result<(), String>)
    ensures
        r is Ok <==> (width > 0 && height > 0 && width % 2 == 0 && height % 2 == 0),
        r matches Err(e) ==> e@ == NV12_DIMENSIONS_ERROR@,
{
    if width <= 0 || height <= 0 || width % 2 != 0 || height % 2 != 0 {
        return Err(String::from_str(NV12_DIMENSIONS_ERROR));
    }
    Ok(())
}

/// Channel `channel` of pixel (`x`, `y`) of a BGRA frame `width` pixels wide.
pub open spec fn channel_at(bgra: Seq<u8>, width: int, x: int, y: int, channel: int) -> int {
    bgra[pixel_index(width, x, y, channel)] as int
}

/// The luma of pixel (`x`, `y`).
pub open spec fn spec_luma(bgra: Seq<u8>, width: int, x: int, y: int) -> u8 {
    spec_y_from_rgb(
        channel_at(bgra, width, x, y, 2),
        channel_at(bgra, width, x, y, 1),
        channel_at(bgra, width, x, y, 0),
    )
}

/// The mean of one channel over the 2x2 block (`block_x`, `block_y`), rounded down.
pub open spec fn block_mean(bgra: Seq<u8>, width: int, block_x: int, block_y: int, channel: int) -> int {
    (channel_at(bgra, width, 2 * block_x, 2 * block_y, channel) + channel_at(
        bgra,
        width,
        2 * block_x + 1,
        2 * block_y,
        channel,
    ) + channel_at(bgra, width, 2 * block_x, 2 * block_y + 1, channel) + channel_at(
        bgra,
        width,
        2 * block_x + 1,
        2 * block_y + 1,
        channel,
    )) / 4
}

pub open spec fn spec_block_u(bgra: Seq<u8>, width: int, block_x: int, block_y: int) -> u8 {
    spec_u_from_rgb(
        block_mean(bgra, width, block_x, block_y, 2),
        block_mean(bgra, width, block_x, block_y, 1),
        block_mean(bgra, width, block_x, block_y, 0),
    )
}

pub open spec fn spec_block_v(bgra: Seq<u8>, width: int, block_x: int, block_y: int) -> u8 {
    spec_v_from_rgb(
        block_mean(bgra, width, block_x, block_y, 2),
        block_mean(bgra, width, block_x, block_y, 1),
        block_mean(bgra, width, block_x, block_y, 0),
    )
}

/// Position of the luma of pixel (`x`, `y`) in an NV12 frame.
pub open spec fn luma_index(width: int, x: int, y: int) -> int {
    y * width + x
}

/// Position of the chroma pair of block (`block_x`, `block_y`) in an NV12 frame; the U byte
/// comes first, the V byte after it.
pub open spec fn chroma_index(width: int, height: int, block_x: int, block_y: int) -> int {
    width * height + block_y * width + 2 * block_x
}

pub open spec fn frame_bytes_message(actual: nat, expected: nat) -> Seq<char> {
    "BGRA video frame has "@ + decimal(actual) + " bytes; expected "@ + decimal(expected) + "."@
}

/// Why a BGRA frame cannot be converted to NV12, in the order checked.
pub open spec fn spec_nv12_error(byte_count: nat, width: i64, height: i64) -> Option<Seq<char>> {
    if !(width > 0 && height > 0 && width % 2 == 0 && height % 2 == 0) {
        Some(NV12_DIMENSIONS_ERROR@)
    } else if width > usize::MAX {
        Some("NV12 width is invalid for Windows encoding."@)
    } else if height > usize::MAX {
        Some("NV12 height is invalid for Windows encoding."@)
    } else if width * height * 4 > usize::MAX {
        Some("BGRA video frame is too large for NV12 conversion."@)
    } else if byte_count != width * height * 4 {
        Some(frame_bytes_message(byte_count, (width * height * 4) as nat))
    } else {
        None
    }
}

proof fn lemma_before_in_row_major(width: int, x: int, y: int, row: int, column: int)
    requires
        0 <= x < width,
        0 <= y,
        0 <= column <= width,
        y < row || (y == row && x < column),
    ensures
        y * width + x < row * width + column,
{
    if y < row {
        assert(y * width + x < row * width) by (nonlinear_arith)
            requires
                0 <= x < width,
                y < row,
        ;
    }
}

/// Appends the chroma pairs of block row `block_y`.
#[verifier::spinoff_prover]
fn push_chroma_row(bgra: &[u8], w: usize, h: usize, block_y: usize, output: &mut Vec<u8>)
    requires
        w > 0 && h > 0 && w % 2 == 0 && h % 2 == 0,
        bgra@.len() == w * h * 4,
        w * h * 4 <= usize::MAX,
        block_y < h / 2,
        old(output)@.len() == w * h + block_y * w,
    ensures
        final(output)@.len() == old(output)@.len() + w,
        final(output)@.subrange(0, old(output)@.len() as int) == old(output)@,
        forall|bx: int|
            0 <= bx < w / 2 ==> #[trigger] final(output)@[chroma_index(w as int, h as int, bx, block_y as int)]
                == spec_block_u(bgra@, w as int, bx, block_y as int) && final(output)@[chroma_index(
                w as int,
                h as int,
                bx,
                block_y as int,
            ) + 1] == spec_block_v(bgra@, w as int, bx, block_y as int),
{
    let ghost wi = w as int;
    let ghost hi = h as int;
    let ghost start = output@;
    let half_w = w / 2;
    let mut block_x: usize = 0;
    while block_x < half_w
        invariant
            wi == w && hi == h,
            w > 0 && h > 0 && w % 2 == 0 && h % 2 == 0,
            half_w == w / 2,
            bgra@.len() == w * h * 4,
            w * h * 4 <= usize::MAX,
            block_y < h / 2,
            start.len() == w * h + block_y * w,
            block_x <= half_w,
            output@.len() == start.len() + 2 * block_x,
            output@.subrange(0, start.len() as int) == start,
            forall|bx: int|
                0 <= bx < block_x ==> #[trigger] output@[chroma_index(wi, hi, bx, block_y as int)]
                    == spec_block_u(bgra@, wi, bx, block_y as int) && output@[chroma_index(
                    wi,
                    hi,
                    bx,
                    block_y as int,
                ) + 1] == spec_block_v(bgra@, wi, bx, block_y as int),
        decreases half_w - block_x,
    {
        let row = 2 * block_y;
        let column = 2 * block_x;
        proof {
            lemma_pixel_index_bounds(wi, hi, column as int, row as int, 2);
            lemma_pixel_index_bounds(wi, hi, column + 1, row as int, 2);
            lemma_pixel_index_bounds(wi, hi, column as int, row + 1, 2);
            lemma_pixel_index_bounds(wi, hi, column + 1, row + 1, 2);
        }
        let o00 = (row * w + column) * 4;
        let o10 = (row * w + column + 1) * 4;
        let o01 = ((row + 1) * w + column) * 4;
        let o11 = ((row + 1) * w + column + 1) * 4;
        let b_sum = bgra[o00] as i32 + bgra[o10] as i32 + bgra[o01] as i32 + bgra[o11] as i32;
        let g_sum = bgra[o00 + 1] as i32 + bgra[o10 + 1] as i32 + bgra[o01 + 1] as i32
            + bgra[o11 + 1] as i32;
        let r_sum = bgra[o00 + 2] as i32 + bgra[o10 + 2] as i32 + bgra[o01 + 2] as i32
            + bgra[o11 + 2] as i32;
        let r = r_sum / 4;
        let g = g_sum / 4;
        let b = b_sum / 4;
        let u = u_from_rgb(r, g, b);
        let v = v_from_rgb(r, g, b);
        let ghost before = output@;
        output.push(u);
        output.push(v);
        proof {
            assert(r == block_mean(bgra@, wi, block_x as int, block_y as int, 2));
            assert(g == block_mean(bgra@, wi, block_x as int, block_y as int, 1));
            assert(b == block_mean(bgra@, wi, block_x as int, block_y as int, 0));
            assert(chroma_index(wi, hi, block_x as int, block_y as int) == before.len());
            assert(output@.subrange(0, start.len() as int) =~= before.subrange(
                0,
                start.len() as int,
            ));
            assert forall|bx: int| 0 <= bx < block_x + 1 implies #[trigger] output@[chroma_index(
                wi,
                hi,
                bx,
                block_y as int,
            )] == spec_block_u(bgra@, wi, bx, block_y as int) && output@[chroma_index(
                wi,
                hi,
                bx,
                block_y as int,
            ) + 1] == spec_block_v(bgra@, wi, bx, block_y as int) by {
                if bx < block_x {
                    assert(output@[chroma_index(wi, hi, bx, block_y as int)] == before[chroma_index(
                        wi,
                        hi,
                        bx,
                        block_y as int,
                    )]);
                    assert(output@[chroma_index(wi, hi, bx, block_y as int) + 1]
                        == before[chroma_index(wi, hi, bx, block_y as int) + 1]);
                }
            }
        }
        block_x = block_x + 1;
    }
}

/// Converts a BGRA frame to NV12: a full-resolution luma plane followed by one interleaved
/// U,V pair per 2x2 block, from the block's mean colour.
#[verifier::rlimit(60)]
#[verifier::spinoff_prover]
pub fn bgra_to_nv12(bgra: &[u8], width: i64, height: i64) -> (r: Result<Vec<u8>, String>)
    ensures
        match r {
            Err(e) => spec_nv12_error(bgra@.len(), width, height) == Some(e@),
            Ok(out) => {
                let w = width as int;
                let h = height as int;
                &&& spec_nv12_error(bgra@.len(), width, height) is None
                &&& out@.len() == w * h + w * h / 2
                &&& forall|x: int, y: int|
                    0 <= x < w && 0 <= y < h ==> #[trigger] out@[luma_index(w, x, y)] == spec_luma(
                        bgra@,
                        w,
                        x,
                        y,
                    )
                &&& forall|bx: int, by: int|
                    0 <= bx < w / 2 && 0 <= by < h / 2 ==> #[trigger] out@[chroma_index(
                        w,
                        h,
                        bx,
                        by,
                    )] == spec_block_u(bgra@, w, bx, by) && out@[chroma_index(w, h, bx, by) + 1]
                        == spec_block_v(bgra@, w, bx, by)
            },
        },
{
    validate_nv12_dimensions(width, height)?;
    if width as u64 > usize::MAX as u64 {
        return Err(String::from_str("NV12 width is invalid for Windows encoding."));
    }
    if height as u64 > usize::MAX as u64 {
        return Err(String::from_str("NV12 height is invalid for Windows encoding."));
    }
    let w = width as usize;
    let h = height as usize;
    let expected_bgra = match w.checked_mul(h) {
        Some(pixels) => match pixels.checked_mul(4) {
            Some(n) => n,
            None => {
                return Err(String::from_str("BGRA video frame is too large for NV12 conversion."));
            },
        },
        None => {
            assert(w * h * 4 > usize::MAX) by (nonlinear_arith)
                requires
                    w * h > usize::MAX,
            ;
            return Err(String::from_str("BGRA video frame is too large for NV12 conversion."));
        },
    };
    if bgra.len() != expected_bgra {
        return Err(
            String::from_str("BGRA video frame has ").concat(
                u64_to_decimal(bgra.len() as u64).as_str(),
            ).concat(" bytes; expected ").concat(u64_to_decimal(expected_bgra as u64).as_str()).concat(
                ".",
            ),
        );
    }
    let ghost wi = w as int;
    let ghost hi = h as int;
    let mut output: Vec<u8> = Vec::new();
    let mut row: usize = 0;
    while row < h
        invariant
            wi == w && hi == h,
            w > 0 && h > 0 && w % 2 == 0 && h % 2 == 0,
            bgra@.len() == w * h * 4,
            w * h * 4 <= usize::MAX,
            row <= h,
            output@.len() == row * w,
            forall|x: int, y: int|
                0 <= x < wi && 0 <= y < row ==> #[trigger] output@[luma_index(wi, x, y)]
                    == spec_luma(bgra@, wi, x, y),
        decreases h - row,
    {
        let mut column: usize = 0;
        while column < w
            invariant
                wi == w && hi == h,
                w > 0 && h > 0,
                bgra@.len() == w * h * 4,
                w * h * 4 <= usize::MAX,
                row < h,
                column <= w,
                output@.len() == row * w + column,
                forall|x: int, y: int|
                    0 <= x < wi && 0 <= y && (y < row || (y == row && x < column))
                        ==> #[trigger] output@[luma_index(wi, x, y)] == spec_luma(bgra@, wi, x, y),
            decreases w - column,
        {
            proof {
                lemma_pixel_index_bounds(wi, hi, column as int, row as int, 2);
            }
            let offset = (row * w + column) * 4;
            let b = bgra[offset] as i32;
            let g = bgra[offset + 1] as i32;
            let r = bgra[offset + 2] as i32;
            let luma = y_from_rgb(r, g, b);
            let ghost before = output@;
            output.push(luma);
            proof {
                assert forall|x: int, y: int|
                    0 <= x < wi && 0 <= y && (y < row || (y == row && x < column + 1))
                        implies #[trigger] output@[luma_index(wi, x, y)] == spec_luma(
                        bgra@,
                        wi,
                        x,
                        y,
                    ) by {
                    if y == row && x == column {
                    } else {
                        lemma_before_in_row_major(wi, x, y, row as int, column as int);
                        assert(output@[luma_index(wi, x, y)] == before[luma_index(wi, x, y)]);
                    }
                }
            }
            column = column + 1;
        }
        assert(row * w + w == (row + 1) * w) by (nonlinear_arith);
        row = row + 1;
    }
    assert(output@.len() == w * h) by (nonlinear_arith)
        requires
            output@.len() == h * w,
    ;
    let ghost luma_plane = output@;
    let half_h = h / 2;
    let mut block_y: usize = 0;
    while block_y < half_h
        invariant
            wi == w && hi == h,
            w > 0 && h > 0 && w % 2 == 0 && h % 2 == 0,
            half_h == h / 2,
            bgra@.len() == w * h * 4,
            w * h * 4 <= usize::MAX,
            block_y <= half_h,
            output@.len() == w * h + block_y * w,
            output@.subrange(0, w * h) == luma_plane,
            forall|bx: int, by: int|
                0 <= bx < wi / 2 && 0 <= by < block_y ==> #[trigger] output@[chroma_index(
                    wi,
                    hi,
                    bx,
                    by,
                )] == spec_block_u(bgra@, wi, bx, by) && output@[chroma_index(wi, hi, bx, by) + 1]
                    == spec_block_v(bgra@, wi, bx, by),
        decreases half_h - block_y,
    {
        let ghost before = output@;
        push_chroma_row(bgra, w, h, block_y, &mut output);
        proof {
            assert(output@.subrange(0, w * h) =~= before.subrange(0, w * h)) by {
                assert forall|k: int| 0 <= k < w * h implies output@[k] == before[k] by {
                    assert(output@[k] == output@.subrange(0, before.len() as int)[k]);
                }
            }
            assert forall|bx: int, by: int|
                0 <= bx < wi / 2 && 0 <= by < block_y + 1 implies #[trigger] output@[chroma_index(
                    wi,
                    hi,
                    bx,
                    by,
                )] == spec_block_u(bgra@, wi, bx, by) && output@[chroma_index(wi, hi, bx, by) + 1]
                    == spec_block_v(bgra@, wi, bx, by) by {
                if by < block_y {
                    assert(by * w + 2 * bx + 1 < block_y * w) by (nonlinear_arith)
                        requires
                            0 <= bx < w / 2,
                            0 <= by < block_y,
                            w % 2 == 0,
                    ;
                    assert(before[chroma_index(wi, hi, bx, by)] == spec_block_u(bgra@, wi, bx, by));
                    assert(before[chroma_index(wi, hi, bx, by) + 1] == spec_block_v(
                        bgra@,
                        wi,
                        bx,
                        by,
                    ));
                    assert(output@[chroma_index(wi, hi, bx, by)] == output@.subrange(
                        0,
                        before.len() as int,
                    )[chroma_index(wi, hi, bx, by)]);
                    assert(output@[chroma_index(wi, hi, bx, by) + 1] == output@.subrange(
                        0,
                        before.len() as int,
                    )[chroma_index(wi, hi, bx, by) + 1]);
                } else {
                    assert(by == block_y);
                    assert(0 <= bx < w / 2);
                    assert(output@[chroma_index(w as int, h as int, bx, block_y as int)]
                        == spec_block_u(bgra@, w as int, bx, block_y as int));
                }
            }
            assert(block_y * w + w == (block_y + 1) * w) by (nonlinear_arith);
        }
        block_y = block_y + 1;
    }
    proof {
        assert(half_h * w == w * h / 2) by (nonlinear_arith)
            requires
                h == 2 * half_h,
                half_h >= 0,
        ;
        assert forall|x: int, y: int| 0 <= x < wi && 0 <= y < hi implies #[trigger] output@[luma_index(
            wi,
            x,
            y,
        )] == spec_luma(bgra@, wi, x, y) by {
            lemma_before_in_row_major(wi, x, y, hi, 0);
            assert(output@[luma_index(wi, x, y)] == output@.subrange(0, w * h)[luma_index(
                wi,
                x,
                y,
            )]);
        }
    }
    Ok(output)
}


/// Why the Windows encoder refuses an input, in the order checked: more than one audio track,
/// video that is not raw BGRA, a non-positive size, frame rate or frame count, or an audio
/// track that is not positive-rate `f32`.
pub open spec fn spec_encode_input_error(
    audio_inputs: Seq<EncodeAudioInput>,
    format: EncodeVideoFormat,
    width: i64,
    height: i64,
    frame_rate: i64,
    frame_count: i64,
) -> Option<Seq<char>> {
    if audio_inputs.len() > 1 {
        Some("Native Windows encoder expects at most one prepared mixed audio input."@)
    } else if format != EncodeVideoFormat::RawBgra {
        Some("Native Windows encoder expects prepared raw BGRA video."@)
    } else if width <= 0 || height <= 0 {
        Some("Native Windows encoder received invalid video dimensions."@)
    } else if frame_rate <= 0 || frame_count <= 0 {
        Some("Native Windows encoder received invalid video timing."@)
    } else if audio_inputs.len() == 1 && audio_inputs[0].sample_format@ != "f32"@ {
        Some(
            "Native Windows encoder expected prepared f32 audio, got "@
                + audio_inputs[0].sample_format@ + "."@,
        )
    } else if audio_inputs.len() == 1 && (audio_inputs[0].sample_rate <= 0
        || audio_inputs[0].channels <= 0) {
        Some("Native Windows encoder received invalid audio format metadata."@)
    } else {
        None
    }
}

pub fn validate_encode_input(input: &EncodeInput) -> (r: Result<(), String>)
    ensures
        match r {
            Ok(()) => spec_encode_input_error(
                input.audio_inputs@,
                input.video.format,
                input.video.width,
                input.video.height,
                input.video.frame_rate,
                input.video.frame_count,
            ) is None,
            Err(e) => spec_encode_input_error(
                input.audio_inputs@,
                input.video.format,
                input.video.width,
                input.video.height,
                input.video.frame_rate,
                input.video.frame_count,
            ) == Some(e@),
        },
{
    if input.audio_inputs.len() > 1 {
        return Err(
            String::from_str("Native Windows encoder expects at most one prepared mixed audio input."),
        );
    }
    if input.video.format != EncodeVideoFormat::RawBgra {
        return Err(String::from_str("Native Windows encoder expects prepared raw BGRA video."));
    }
    if input.video.width <= 0 || input.video.height <= 0 {
        return Err(String::from_str("Native Windows encoder received invalid video dimensions."));
    }
    if input.video.frame_rate <= 0 || input.video.frame_count <= 0 {
        return Err(String::from_str("Native Windows encoder received invalid video timing."));
    }
    if input.audio_inputs.len() == 1 {
        let audio = &input.audio_inputs[0];
        if !str_equals(audio.sample_format.as_str(), "f32") {
            return Err(
                String::from_str("Native Windows encoder expected prepared f32 audio, got ").concat(
                    audio.sample_format.as_str(),
                ).concat("."),
            );
        }
        if audio.sample_rate <= 0 || audio.channels <= 0 {
            return Err(
                String::from_str("Native Windows encoder received invalid audio format metadata."),
            );
        }
    }
    Ok(())
}

/// The byte size of one raw BGRA frame for the encoder.
pub fn bgra_frame_size(width: i64, height: i64) -> (r: Result<usize, String>)
    ensures
        match r {
            Ok(n) => 0 <= width && 0 <= height && n == width * height * 4,
            Err(e) => if width < 0 || width > usize::MAX {
                e@ == "Video width is invalid for Windows encoding."@
            } else if height < 0 || height > usize::MAX {
                e@ == "Video height is invalid for Windows encoding."@
            } else {
                width * height * 4 > usize::MAX && e@
                    == "Raw video frame is too large for Windows encoding."@
            },
        },
{
    if width < 0 || width as u64 > usize::MAX as u64 {
        return Err(String::from_str("Video width is invalid for Windows encoding."));
    }
    if height < 0 || height as u64 > usize::MAX as u64 {
        return Err(String::from_str("Video height is invalid for Windows encoding."));
    }
    let w = width as usize;
    let h = height as usize;
    match w.checked_mul(h) {
        Some(pixels) => match pixels.checked_mul(4) {
            Some(n) => Ok(n),
            None => Err(String::from_str("Raw video frame is too large for Windows encoding.")),
        },
        None => {
            assert(w * h * 4 > usize::MAX) by (nonlinear_arith)
                requires
                    w * h > usize::MAX,
            ;
            Err(String::from_str("Raw video frame is too large for Windows encoding."))
        },
    }
}

/// The Media Foundation time of `frame_count` frames at `frame_rate`, in 100 ns units,
/// rounded half up.
pub open spec fn spec_hns_from_frames(frame_count: int, frame_rate: int) -> int {
    (frame_count * HNS_PER_SECOND + frame_rate / 2) / frame_rate
}

pub fn hns_from_frames(frame_count: i64, frame_rate: i64) -> (r: Result<i64, String>)
    ensures
        match r {
            Ok(t) => frame_count >= 0 && frame_rate > 0 && t == spec_hns_from_frames(
                frame_count as int,
                frame_rate as int,
            ),
            Err(e) => if frame_count < 0 || frame_rate <= 0 {
                e@ == "Invalid Media Foundation timeline inputs."@
            } else {
                spec_hns_from_frames(frame_count as int, frame_rate as int) > i64::MAX && e@
                    == "Media Foundation timestamp is too large."@
            },
        },
{
    if frame_count < 0 || frame_rate <= 0 {
        return Err(String::from_str("Invalid Media Foundation timeline inputs."));
    }
    let count = frame_count as u128;
    let rate = frame_rate as u128;
    assert(count * 10_000_000 <= 0x7fff_ffff_ffff_ffff * 10_000_000) by (nonlinear_arith)
        requires
            count <= 0x7fff_ffff_ffff_ffff,
    ;
    let value = (count * 10_000_000 + rate / 2) / rate;
    if value > 0x7fff_ffff_ffff_ffffu128 {
        return Err(String::from_str("Media Foundation timestamp is too large."));
    }
    Ok(value as i64)
}

/// The H.264 bit rate for a video: a twelfth of its pixel rate, kept between 2 and 16 Mbit/s.
pub open spec fn spec_video_bitrate(width: int, height: int, frame_rate: int) -> int {
    let target = width * height * frame_rate / 12;
    if target < 2_000_000 {
        2_000_000
    } else if target > 16_000_000 {
        16_000_000
    } else {
        target
    }
}

pub fn video_bitrate(width: u32, height: u32, frame_rate: u32) -> (r: u32)
    requires
        width * height * frame_rate <= u64::MAX,
    ensures
        r == spec_video_bitrate(width as int, height as int, frame_rate as int),
{
    assert(width * height <= width * height * frame_rate || frame_rate == 0) by (nonlinear_arith)
        requires
            frame_rate >= 0,
            width >= 0,
            height >= 0,
    ;
    assert(width * height <= 0xffff_ffff * 0xffff_ffff) by (nonlinear_arith)
        requires
            width <= 0xffff_ffff,
            height <= 0xffff_ffff,
    ;
    let pixels_per_second = width as u64 * height as u64 * frame_rate as u64;
    let target = pixels_per_second / 12;
    if target < 2_000_000 {
        2_000_000
    } else if target > 16_000_000 {
        16_000_000
    } else {
        target as u32
    }
}

/// Two 32-bit halves packed into one 64-bit attribute value, the first one high.
pub fn pack_u32_pair(high: u32, low: u32) -> (r: u64)
    ensures
        r == high * 0x1_0000_0000 + low,
{
    let r = ((high as u64) << 32u64) | (low as u64);
    assert(((high as u64) << 32u64) | (low as u64) == (high as u64) * 0x1_0000_0000u64 + (
    low as u64)) by (bit_vector);
    r
}

} // verus!

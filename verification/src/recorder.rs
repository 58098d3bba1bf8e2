//! The capture side of a recording: the locked output canvas, how captured frames are fitted
//! onto it, how video targets are resolved, and the records written to the capture sidecars.
use std::borrow::Cow;
use vstd::arithmetic::div_mod::{lemma_fundamental_div_mod_converse_mod, lemma_multiply_divide_lt};
use vstd::prelude::*;
use vstd::string::*;

use crate::capture::{
    parse_capture_video_source_id, spec_parse_source_id, CaptureVideoSourceKind,
    APPLICATION_VIDEO_ERROR,
};
use crate::media::chunked_video::{is_chunked_video_path, spec_is_chunked_video_path};
use crate::media::sidecar::{
    lz4_block, lz4_compress_prepend_size, lz4_framed, spec_video_header_bytes, video_frame_record,
    VideoFrameHeader, BGRA_LZ4_FORMAT_CODE,
};
use crate::platform::PlatformBackend;
use crate::storage::sessions::{RecordingSession, RecordingSessionFiles};
use crate::storage::{RecordingSessionStatus, RecordingStatus, UpdateRecordingInput};
use crate::text::{decimal, join, parse_u32, parse_u32_spec, seq_join, string_views, u64_to_decimal};

verus! {

/// Frames per second requested from the capture library.
pub const CAPTURE_FRAME_RATE: u32 = 30;

pub const BGRA_BYTES_PER_PIXEL: usize = 4;

/// The largest canvas a raw capture is written at.
pub const MAX_RAW_VIDEO_WIDTH: u32 = 1280;

pub const MAX_RAW_VIDEO_HEIGHT: u32 = 720;

/// Length of one segment of a chunked capture.
pub const CHUNKED_VIDEO_DURATION_SECONDS: u32 = 5;

pub const INVALID_CANVAS_ERROR: &'static str = "Capture output dimensions are invalid.";

pub const FRAME_TOO_LARGE_ERROR: &'static str = "Frame dimensions are too large to capture.";

/// The capture frame rate.
pub fn frame_rate() -> (r: i64)
    ensures
        r == CAPTURE_FRAME_RATE,
{
    CAPTURE_FRAME_RATE as i64
}

/// `numerator / denominator` rounded half up, saturated at `u32::MAX`.
pub open spec fn spec_rounded_ratio(numerator: int, denominator: int) -> int {
    let q = (numerator + denominator / 2) / denominator;
    if q <= u32::MAX {
        q
    } else {
        u32::MAX as int
    }
}

pub fn rounded_ratio(numerator: u64, denominator: u64) -> (r: u32)
    requires
        denominator > 0,
        numerator + denominator / 2 <= u64::MAX,
    ensures
        r == spec_rounded_ratio(numerator as int, denominator as int),
{
    let q = (numerator + denominator / 2) / denominator;
    if q <= 4294967295u64 {
        q as u32
    } else {
        u32::MAX
    }
}

/// A canvas side made even (odd sides lose one pixel); sides of two or less stay, and zero
/// becomes one.
pub open spec fn spec_even_canvas_dimension(value: int) -> int {
    if value <= 2 {
        if value < 1 {
            1
        } else {
            value
        }
    } else {
        value - value % 2
    }
}

pub fn even_canvas_dimension(value: u32) -> (r: u32)
    ensures
        r == spec_even_canvas_dimension(value as int),
        1 <= r,
        r <= value || value == 0,
{
    if value <= 2 {
        if value < 1 {
            1
        } else {
            value
        }
    } else {
        value - (value % 2)
    }
}

pub open spec fn spec_clamp(value: int, low: int, high: int) -> int {
    if value < low {
        low
    } else if value > high {
        high
    } else {
        value
    }
}

fn clamp_u32(value: u32, low: u32, high: u32) -> (r: u32)
    requires
        low <= high,
    ensures
        r == spec_clamp(value as int, low as int, high as int),
{
    if value < low {
        low
    } else if value > high {
        high
    } else {
        value
    }
}

/// The size every frame of one capture is written at.
#[derive(Debug, Clone, Copy, PartialEq, Eq, Structural)]
pub struct OutputCanvas {
    pub width: u32,
    pub height: u32,
}

/// The canvas for a capture of `width` by `height`: the source size when it fits in
/// 1280x720, otherwise the source scaled down to fit with its aspect ratio kept; both sides
/// made even.
pub open spec fn spec_bounded_canvas(width: int, height: int) -> OutputCanvas {
    if width <= MAX_RAW_VIDEO_WIDTH && height <= MAX_RAW_VIDEO_HEIGHT {
        OutputCanvas {
            width: spec_even_canvas_dimension(width) as u32,
            height: spec_even_canvas_dimension(height) as u32,
        }
    } else if width * MAX_RAW_VIDEO_HEIGHT > MAX_RAW_VIDEO_WIDTH * height {
        OutputCanvas {
            width: spec_even_canvas_dimension(MAX_RAW_VIDEO_WIDTH as int) as u32,
            height: spec_even_canvas_dimension(
                spec_clamp(
                    spec_rounded_ratio(height * MAX_RAW_VIDEO_WIDTH, width),
                    1,
                    MAX_RAW_VIDEO_HEIGHT as int,
                ),
            ) as u32,
        }
    } else {
        OutputCanvas {
            width: spec_even_canvas_dimension(
                spec_clamp(
                    spec_rounded_ratio(width * MAX_RAW_VIDEO_HEIGHT, height),
                    1,
                    MAX_RAW_VIDEO_WIDTH as int,
                ),
            ) as u32,
            height: spec_even_canvas_dimension(MAX_RAW_VIDEO_HEIGHT as int) as u32,
        }
    }
}

impl OutputCanvas {
    pub open spec fn is_valid(self) -> bool {
        self.width > 0 && self.height > 0
    }

    pub fn new(width: u32, height: u32) -> (r: Result<OutputCanvas, String>)
        ensures
            match r {
                Ok(canvas) => width > 0 && height > 0 && canvas == (OutputCanvas { width, height }),
                Err(e) => (width == 0 || height == 0) && e@ == INVALID_CANVAS_ERROR@,
            },
    {
        if width == 0 || height == 0 {
            return Err(String::from_str(INVALID_CANVAS_ERROR));
        }
        Ok(OutputCanvas { width, height })
    }

    /// The canvas for a capture source of the given size; it never exceeds 1280x720.
    pub fn bounded(width: u32, height: u32) -> (r: Result<OutputCanvas, String>)
        ensures
            match r {
                Ok(canvas) => {
                    &&& width > 0 && height > 0
                    &&& canvas == spec_bounded_canvas(width as int, height as int)
                    &&& 1 <= canvas.width <= MAX_RAW_VIDEO_WIDTH
                    &&& 1 <= canvas.height <= MAX_RAW_VIDEO_HEIGHT
                },
                Err(e) => (width == 0 || height == 0) && e@ == INVALID_CANVAS_ERROR@,
            },
    {
        let canvas = OutputCanvas::new(width, height)?;
        if canvas.width <= MAX_RAW_VIDEO_WIDTH && canvas.height <= MAX_RAW_VIDEO_HEIGHT {
            return Ok(
                OutputCanvas {
                    width: even_canvas_dimension(canvas.width),
                    height: even_canvas_dimension(canvas.height),
                },
            );
        }
        let source_width = canvas.width as u64;
        let source_height = canvas.height as u64;
        let max_width = MAX_RAW_VIDEO_WIDTH as u64;
        let max_height = MAX_RAW_VIDEO_HEIGHT as u64;
        assert(source_width * max_height <= 0xffff_ffff * 720) by (nonlinear_arith)
            requires
                source_width <= 0xffff_ffff,
                max_height == 720,
        ;
        assert(source_height * max_width <= 0xffff_ffff * 1280) by (nonlinear_arith)
            requires
                source_height <= 0xffff_ffff,
                max_width == 1280,
        ;
        let (scaled_width, scaled_height) = if source_width * max_height > max_width
            * source_height {
            (MAX_RAW_VIDEO_WIDTH, rounded_ratio(source_height * max_width, source_width))
        } else {
            (rounded_ratio(source_width * max_height, source_height), MAX_RAW_VIDEO_HEIGHT)
        };
        Ok(
            OutputCanvas {
                width: even_canvas_dimension(clamp_u32(scaled_width, 1, MAX_RAW_VIDEO_WIDTH)),
                height: even_canvas_dimension(clamp_u32(scaled_height, 1, MAX_RAW_VIDEO_HEIGHT)),
            },
        )
    }
}

/// The size a source frame is scaled to inside the canvas: as large as fits with its aspect
/// ratio kept (rounded, at least one pixel).
pub open spec fn spec_scale_to_fit(
    source_width: int,
    source_height: int,
    canvas_width: int,
    canvas_height: int,
) -> (int, int) {
    if source_width * canvas_height <= canvas_width * source_height {
        (
            spec_clamp(
                spec_rounded_ratio(source_width * canvas_height, source_height),
                1,
                canvas_width,
            ),
            canvas_height,
        )
    } else {
        (
            canvas_width,
            spec_clamp(
                spec_rounded_ratio(source_height * canvas_width, source_width),
                1,
                canvas_height,
            ),
        )
    }
}

pub fn scale_to_fit_dimensions(source_width: u32, source_height: u32, output_canvas: OutputCanvas) -> (r: (
    u32,
    u32,
))
    requires
        source_width > 0,
        source_height > 0,
        output_canvas.is_valid(),
    ensures
        (r.0 as int, r.1 as int) == spec_scale_to_fit(
            source_width as int,
            source_height as int,
            output_canvas.width as int,
            output_canvas.height as int,
        ),
        1 <= r.0 <= output_canvas.width,
        1 <= r.1 <= output_canvas.height,
{
    let source_width = source_width as u64;
    let source_height = source_height as u64;
    let canvas_width = output_canvas.width as u64;
    let canvas_height = output_canvas.height as u64;
    assert(source_width * canvas_height <= 0xffff_ffff * 0xffff_ffff) by (nonlinear_arith)
        requires
            source_width <= 0xffff_ffff,
            canvas_height <= 0xffff_ffff,
    ;
    assert(source_height * canvas_width <= 0xffff_ffff * 0xffff_ffff) by (nonlinear_arith)
        requires
            source_height <= 0xffff_ffff,
            canvas_width <= 0xffff_ffff,
    ;
    if source_width * canvas_height <= canvas_width * source_height {
        let scaled_width = clamp_u32(
            rounded_ratio(source_width * canvas_height, source_height),
            1,
            output_canvas.width,
        );
        (scaled_width, output_canvas.height)
    } else {
        let scaled_height = clamp_u32(
            rounded_ratio(source_height * canvas_width, source_width),
            1,
            output_canvas.height,
        );
        (output_canvas.width, scaled_height)
    }
}

/// The byte count of a BGRA frame, or why it cannot be held.
pub fn bgra_byte_count(width: u32, height: u32) -> (r: Result<usize, String>)
    ensures
        match r {
            Ok(n) => n == width * height * 4,
            Err(e) => width * height * 4 > usize::MAX && e@ == FRAME_TOO_LARGE_ERROR@,
        },
{
    let w = width as usize;
    let h = height as usize;
    match w.checked_mul(h) {
        Some(pixels) => match pixels.checked_mul(BGRA_BYTES_PER_PIXEL) {
            Some(n) => Ok(n),
            None => Err(String::from_str(FRAME_TOO_LARGE_ERROR)),
        },
        None => {
            assert(width * height * 4 > usize::MAX) by (nonlinear_arith)
                requires
                    width * height > usize::MAX,
            ;
            Err(String::from_str(FRAME_TOO_LARGE_ERROR))
        },
    }
}

/// The opaque black pixel, byte by byte.
pub open spec fn black_byte(channel: int) -> u8 {
    if channel == 3 {
        0xff
    } else {
        0
    }
}

/// An opaque black BGRA frame of the canvas size.
pub fn black_bgra_frame(output_canvas: OutputCanvas) -> (r: Result<Vec<u8>, String>)
    ensures
        match r {
            Ok(frame) => {
                &&& frame@.len() == output_canvas.width * output_canvas.height * 4
                &&& frame@.len() <= usize::MAX
                &&& forall|k: int| 0 <= k < frame@.len() ==> #[trigger] frame@[k] == black_byte(k % 4)
            },
            Err(e) => output_canvas.width * output_canvas.height * 4 > usize::MAX && e@
                == FRAME_TOO_LARGE_ERROR@,
        },
{
    let byte_count = bgra_byte_count(output_canvas.width, output_canvas.height)?;
    let mut frame: Vec<u8> = Vec::new();
    while frame.len() < byte_count
        invariant
            byte_count % 4 == 0,
            frame@.len() % 4 == 0,
            frame@.len() <= byte_count,
            forall|k: int| 0 <= k < frame@.len() ==> #[trigger] frame@[k] == black_byte(k % 4),
        decreases byte_count - frame@.len(),
    {
        frame.push(0);
        frame.push(0);
        frame.push(0);
        frame.push(0xff);
    }
    Ok(frame)
}


/// Position of channel `channel` of pixel (`x`, `y`) in a BGRA frame `width` pixels wide.
pub open spec fn pixel_index(width: int, x: int, y: int, channel: int) -> int {
    (y * width + x) * 4 + channel
}

/// Every channel of every pixel of a frame lies inside the frame's bytes, at its channel's
/// place in the pixel.
pub proof fn lemma_pixel_index_bounds(width: int, height: int, x: int, y: int, channel: int)
    requires
        0 <= x < width,
        0 <= y < height,
        0 <= channel < 4,
    ensures
        0 <= pixel_index(width, x, y, channel) < width * height * 4,
        pixel_index(width, x, y, channel) % 4 == channel,
{
    assert(0 <= y * width + x < width * height) by (nonlinear_arith)
        requires
            0 <= x < width,
            0 <= y < height,
    ;
    lemma_fundamental_div_mod_converse_mod(
        pixel_index(width, x, y, channel),
        4,
        y * width + x,
        channel,
    );
}

/// Distinct channels of distinct pixels never share a byte.
pub proof fn lemma_pixel_index_unique(
    width: int,
    x1: int,
    y1: int,
    c1: int,
    x2: int,
    y2: int,
    c2: int,
)
    requires
        0 <= x1 < width,
        0 <= x2 < width,
        0 <= y1,
        0 <= y2,
        0 <= c1 < 4,
        0 <= c2 < 4,
        pixel_index(width, x1, y1, c1) == pixel_index(width, x2, y2, c2),
    ensures
        x1 == x2 && y1 == y2 && c1 == c2,
{
    let p1 = y1 * width + x1;
    let p2 = y2 * width + x2;
    assert(p1 == p2 && c1 == c2);
    assert(y1 == y2) by (nonlinear_arith)
        requires
            y1 * width + x1 == y2 * width + x2,
            0 <= x1 < width,
            0 <= x2 < width,
    ;
}

/// Byte `channel` of pixel (`x`, `y`) of a frame fitted onto the canvas: inside the scaled
/// area, the nearest source pixel; outside it, opaque black.
pub open spec fn spec_fitted_byte(
    source: Seq<u8>,
    source_width: int,
    source_height: int,
    scaled_width: int,
    scaled_height: int,
    x_offset: int,
    y_offset: int,
    x: int,
    y: int,
    channel: int,
) -> u8 {
    if x_offset <= x < x_offset + scaled_width && y_offset <= y < y_offset + scaled_height {
        let source_x = (x - x_offset) * source_width / scaled_width;
        let source_y = (y - y_offset) * source_height / scaled_height;
        source[pixel_index(source_width, source_x, source_y, channel)]
    } else {
        black_byte(channel)
    }
}

/// Whether pixel (`x`, `y`) lies in the scaled area and was visited before row `row`, column
/// `column` of it.
pub open spec fn fitted_before(
    scaled_width: int,
    scaled_height: int,
    x_offset: int,
    y_offset: int,
    row: int,
    column: int,
    x: int,
    y: int,
) -> bool {
    &&& x_offset <= x < x_offset + scaled_width
    &&& y_offset <= y < y_offset + scaled_height
    &&& (y - y_offset < row || (y - y_offset == row && x - x_offset < column))
}

#[verifier::rlimit(40)]
fn copy_scaled_bgra(
    source: &[u8],
    source_width: u32,
    source_height: u32,
    output: &mut Vec<u8>,
    output_canvas: OutputCanvas,
    scaled_width: u32,
    scaled_height: u32,
    x_offset: u32,
    y_offset: u32,
)
    requires
        source_width > 0,
        source_height > 0,
        source@.len() == source_width * source_height * 4,
        old(output)@.len() == output_canvas.width * output_canvas.height * 4,
        old(output)@.len() <= usize::MAX,
        1 <= scaled_width,
        1 <= scaled_height,
        x_offset + scaled_width <= output_canvas.width,
        y_offset + scaled_height <= output_canvas.height,
        forall|x: int, y: int, c: int|
            0 <= x < output_canvas.width && 0 <= y < output_canvas.height && 0 <= c < 4
                ==> #[trigger] old(output)@[pixel_index(output_canvas.width as int, x, y, c)]
                == black_byte(c),
    ensures
        final(output)@.len() == old(output)@.len(),
        forall|x: int, y: int, c: int|
            0 <= x < output_canvas.width && 0 <= y < output_canvas.height && 0 <= c < 4
                ==> #[trigger] final(output)@[pixel_index(output_canvas.width as int, x, y, c)]
                == spec_fitted_byte(
                source@,
                source_width as int,
                source_height as int,
                scaled_width as int,
                scaled_height as int,
                x_offset as int,
                y_offset as int,
                x,
                y,
                c,
            ),
{
    let ghost cw = output_canvas.width as int;
    let ghost ch = output_canvas.height as int;
    let ghost sw = source_width as int;
    let ghost sh = source_height as int;
    let ghost scw = scaled_width as int;
    let ghost sch = scaled_height as int;
    let ghost xo = x_offset as int;
    let ghost yo = y_offset as int;
    let source_len = source.len();
    let mut target_y: u32 = 0;
    while target_y < scaled_height
        invariant
            source@.len() <= usize::MAX,
            cw == output_canvas.width,
            ch == output_canvas.height,
            sw == source_width && sh == source_height,
            scw == scaled_width && sch == scaled_height,
            xo == x_offset && yo == y_offset,
            sw > 0 && sh > 0,
            source@.len() == sw * sh * 4,
            output@.len() == cw * ch * 4,
            output@.len() <= usize::MAX,
            1 <= scw && 1 <= sch,
            xo + scw <= cw,
            yo + sch <= ch,
            target_y <= sch,
            forall|x: int, y: int, c: int|
                0 <= x < cw && 0 <= y < ch && 0 <= c < 4 ==> #[trigger] output@[pixel_index(
                    cw,
                    x,
                    y,
                    c,
                )] == if fitted_before(scw, sch, xo, yo, target_y as int, 0, x, y) {
                    spec_fitted_byte(source@, sw, sh, scw, sch, xo, yo, x, y, c)
                } else {
                    black_byte(c)
                },
        decreases scaled_height - target_y,
    {
        assert(target_y * sh <= 0xffff_ffff * 0xffff_ffff) by (nonlinear_arith)
            requires
                target_y <= 0xffff_ffff,
                sh <= 0xffff_ffff,
        ;
        let source_y: u64 = (target_y as u64 * source_height as u64) / scaled_height as u64;
        proof {
            assert(target_y * sh < sch * sh) by (nonlinear_arith)
                requires
                    target_y < sch,
                    sh > 0,
            ;
            lemma_multiply_divide_lt(target_y * sh, sch, sh);
        }
        let mut target_x: u32 = 0;
        while target_x < scaled_width
            invariant
                source@.len() <= usize::MAX,
                cw == output_canvas.width,
                ch == output_canvas.height,
                sw == source_width && sh == source_height,
                scw == scaled_width && sch == scaled_height,
                xo == x_offset && yo == y_offset,
                sw > 0 && sh > 0,
                source@.len() == sw * sh * 4,
                output@.len() == cw * ch * 4,
                output@.len() <= usize::MAX,
                1 <= scw && 1 <= sch,
                xo + scw <= cw,
                yo + sch <= ch,
                target_y < sch,
                target_x <= scw,
                source_y == (target_y * sh) / sch,
                source_y < sh,
                forall|x: int, y: int, c: int|
                    0 <= x < cw && 0 <= y < ch && 0 <= c < 4 ==> #[trigger] output@[pixel_index(
                        cw,
                        x,
                        y,
                        c,
                    )] == if fitted_before(
                        scw,
                        sch,
                        xo,
                        yo,
                        target_y as int,
                        target_x as int,
                        x,
                        y,
                    ) {
                        spec_fitted_byte(source@, sw, sh, scw, sch, xo, yo, x, y, c)
                    } else {
                        black_byte(c)
                    },
            decreases scaled_width - target_x,
        {
            assert(target_x * sw <= 0xffff_ffff * 0xffff_ffff) by (nonlinear_arith)
                requires
                    target_x <= 0xffff_ffff,
                    sw <= 0xffff_ffff,
            ;
            let source_x: u64 = (target_x as u64 * source_width as u64) / scaled_width as u64;
            let ghost gx = (x_offset + target_x) as int;
            let ghost gy = (y_offset + target_y) as int;
            proof {
                assert(target_x * sw < scw * sw) by (nonlinear_arith)
                    requires
                        target_x < scw,
                        sw > 0,
                ;
                lemma_multiply_divide_lt(target_x * sw, scw, sw);
                lemma_pixel_index_bounds(sw, sh, source_x as int, source_y as int, 3);
                lemma_pixel_index_bounds(cw, ch, gx, gy, 3);
                assert(source@.len() <= usize::MAX);
                assert(source_y * sw + source_x < sw * sh);
                assert((source_y * sw + source_x) * 4 + 3 < source@.len());
                assert(gy * cw + gx < cw * ch);
            }
            let source_index: usize = ((source_y * source_width as u64 + source_x) * 4) as usize;
            let output_index: usize = (((y_offset as u64 + target_y as u64)
                * output_canvas.width as u64 + (x_offset as u64 + target_x as u64)) * 4) as usize;
            assert(source_index == pixel_index(sw, source_x as int, source_y as int, 0));
            assert(output_index == pixel_index(cw, gx, gy, 0));
            let ghost before = output@;
            output.set(output_index, source[source_index]);
            output.set(output_index + 1, source[source_index + 1]);
            output.set(output_index + 2, source[source_index + 2]);
            output.set(output_index + 3, source[source_index + 3]);
            proof {
                assert forall|x: int, y: int, c: int|
                    0 <= x < cw && 0 <= y < ch && 0 <= c < 4 implies #[trigger] output@[pixel_index(
                        cw,
                        x,
                        y,
                        c,
                    )] == if fitted_before(
                        scw,
                        sch,
                        xo,
                        yo,
                        target_y as int,
                        target_x + 1,
                        x,
                        y,
                    ) {
                        spec_fitted_byte(source@, sw, sh, scw, sch, xo, yo, x, y, c)
                    } else {
                        black_byte(c)
                    } by {
                    lemma_pixel_index_bounds(cw, ch, x, y, c);
                    if x == gx && y == gy {
                        assert(pixel_index(cw, x, y, c) == output_index + c);
                        assert(source_index + c == pixel_index(
                            sw,
                            source_x as int,
                            source_y as int,
                            c,
                        ));
                    } else {
                        let p = pixel_index(cw, x, y, c);
                        if p == output_index {
                            lemma_pixel_index_unique(cw, x, y, c, gx, gy, 0);
                        }
                        if p == output_index + 1 {
                            lemma_pixel_index_unique(cw, x, y, c, gx, gy, 1);
                        }
                        if p == output_index + 2 {
                            lemma_pixel_index_unique(cw, x, y, c, gx, gy, 2);
                        }
                        if p == output_index + 3 {
                            lemma_pixel_index_unique(cw, x, y, c, gx, gy, 3);
                        }
                        assert(output@[pixel_index(cw, x, y, c)] == before[pixel_index(
                            cw,
                            x,
                            y,
                            c,
                        )]);
                    }
                }
            }
            target_x = target_x + 1;
        }
        target_y = target_y + 1;
    }
}


pub use crate::media::sidecar::BGRA_FORMAT_CODE;

/// A captured frame fitted onto the capture canvas, with where its picture lies.
#[derive(Debug)]
pub struct NormalizedVideoFrame<'a> {
    pub source_width: u32,
    pub source_height: u32,
    pub output_width: u32,
    pub output_height: u32,
    pub scaled_width: u32,
    pub scaled_height: u32,
    pub x_offset: u32,
    pub y_offset: u32,
    pub bytes: Cow<'a, [u8]>,
}

pub open spec fn unsupported_format_message(format_code: u32) -> Seq<char> {
    "Unsupported captured frame format "@ + decimal(format_code as nat) + "; expected BGRA."@
}

pub open spec fn frame_size_message(actual: nat, expected: nat, width: u32, height: u32) -> Seq<
    char,
> {
    "Captured BGRA frame has "@ + decimal(actual) + " bytes; expected "@ + decimal(expected)
        + " for "@ + decimal(width as nat) + "x"@ + decimal(height as nat) + "."@
}

/// Why a captured frame cannot be fitted onto the canvas, checked in this order: its format
/// is not BGRA, a side is zero, its size cannot be held, its byte count does not match its
/// size, or (when it must be rescaled) the canvas size cannot be held.
pub open spec fn spec_normalize_error(
    source_width: u32,
    source_height: u32,
    format_code: u32,
    byte_count: nat,
    canvas: OutputCanvas,
) -> Option<Seq<char>> {
    let expected = source_width * source_height * 4;
    if format_code != BGRA_FORMAT_CODE {
        Some(unsupported_format_message(format_code))
    } else if source_width == 0 || source_height == 0 {
        Some("Captured frame dimensions are invalid."@)
    } else if expected > usize::MAX {
        Some(FRAME_TOO_LARGE_ERROR@)
    } else if byte_count != expected {
        Some(frame_size_message(byte_count, expected as nat, source_width, source_height))
    } else if (source_width != canvas.width || source_height != canvas.height) && canvas.width
        * canvas.height * 4 > usize::MAX {
        Some(FRAME_TOO_LARGE_ERROR@)
    } else {
        None
    }
}

/// Fits a captured BGRA frame onto the capture canvas. A frame of the canvas size is passed
/// through untouched, borrowed rather than copied; any other is scaled to fit with its aspect ratio kept (nearest pixel),
/// centred, and padded with opaque black.
pub fn normalize_bgra_frame<'a>(
    source_width: u32,
    source_height: u32,
    format_code: u32,
    bytes: &'a [u8],
    output_canvas: OutputCanvas,
) -> (r: Result<NormalizedVideoFrame<'a>, String>)
    requires
        output_canvas.is_valid(),
    ensures
        match r {
            Err(e) => spec_normalize_error(
                source_width,
                source_height,
                format_code,
                bytes@.len(),
                output_canvas,
            ) == Some(e@),
            Ok(frame) => {
                let cw = output_canvas.width as int;
                let ch = output_canvas.height as int;
                &&& spec_normalize_error(
                    source_width,
                    source_height,
                    format_code,
                    bytes@.len(),
                    output_canvas,
                ) is None
                &&& frame.source_width == source_width
                &&& frame.source_height == source_height
                &&& frame.output_width == output_canvas.width
                &&& frame.output_height == output_canvas.height
                &&& if source_width == output_canvas.width && source_height
                    == output_canvas.height {
                    &&& frame.scaled_width == output_canvas.width
                    &&& frame.scaled_height == output_canvas.height
                    &&& frame.x_offset == 0
                    &&& frame.y_offset == 0
                    &&& frame.bytes@ == bytes@
                    &&& frame.bytes is Borrowed
                } else {
                    &&& (frame.scaled_width as int, frame.scaled_height as int)
                        == spec_scale_to_fit(source_width as int, source_height as int, cw, ch)
                    &&& frame.x_offset == (cw - frame.scaled_width) / 2
                    &&& frame.y_offset == (ch - frame.scaled_height) / 2
                    &&& frame.bytes@.len() == cw * ch * 4
                    &&& forall|x: int, y: int, c: int|
                        0 <= x < cw && 0 <= y < ch && 0 <= c < 4
                            ==> #[trigger] frame.bytes@[pixel_index(cw, x, y, c)]
                            == spec_fitted_byte(
                            bytes@,
                            source_width as int,
                            source_height as int,
                            frame.scaled_width as int,
                            frame.scaled_height as int,
                            frame.x_offset as int,
                            frame.y_offset as int,
                            x,
                            y,
                            c,
                        )
                }
            },
        },
{
    if format_code != BGRA_FORMAT_CODE {
        return Err(
            String::from_str("Unsupported captured frame format ").concat(
                u64_to_decimal(format_code as u64).as_str(),
            ).concat("; expected BGRA."),
        );
    }
    if source_width == 0 || source_height == 0 {
        return Err(String::from_str("Captured frame dimensions are invalid."));
    }
    let expected_byte_count = match bgra_byte_count(source_width, source_height) {
        Ok(n) => n,
        Err(e) => {
            return Err(e);
        },
    };
    if bytes.len() != expected_byte_count {
        return Err(
            String::from_str("Captured BGRA frame has ").concat(
                u64_to_decimal(bytes.len() as u64).as_str(),
            ).concat(" bytes; expected ").concat(
                u64_to_decimal(expected_byte_count as u64).as_str(),
            ).concat(" for ").concat(u64_to_decimal(source_width as u64).as_str()).concat(
                "x",
            ).concat(u64_to_decimal(source_height as u64).as_str()).concat("."),
        );
    }
    if source_width == output_canvas.width && source_height == output_canvas.height {
        return Ok(
            NormalizedVideoFrame {
                source_width,
                source_height,
                output_width: output_canvas.width,
                output_height: output_canvas.height,
                scaled_width: output_canvas.width,
                scaled_height: output_canvas.height,
                x_offset: 0,
                y_offset: 0,
                bytes: Cow::Borrowed(bytes),
            },
        );
    }
    let (scaled_width, scaled_height) = scale_to_fit_dimensions(
        source_width,
        source_height,
        output_canvas,
    );
    let x_offset = (output_canvas.width - scaled_width) / 2;
    let y_offset = (output_canvas.height - scaled_height) / 2;
    let mut normalized = match black_bgra_frame(output_canvas) {
        Ok(frame) => frame,
        Err(e) => {
            return Err(e);
        },
    };
    proof {
        let cw = output_canvas.width as int;
        let ch = output_canvas.height as int;
        assert forall|x: int, y: int, c: int|
            0 <= x < cw && 0 <= y < ch && 0 <= c < 4 implies #[trigger] normalized@[pixel_index(
                cw,
                x,
                y,
                c,
            )] == black_byte(c) by {
            lemma_pixel_index_bounds(cw, ch, x, y, c);
        }
    }
    copy_scaled_bgra(
        bytes,
        source_width,
        source_height,
        &mut normalized,
        output_canvas,
        scaled_width,
        scaled_height,
        x_offset,
        y_offset,
    );
    Ok(
        NormalizedVideoFrame {
            source_width,
            source_height,
            output_width: output_canvas.width,
            output_height: output_canvas.height,
            scaled_width,
            scaled_height,
            x_offset,
            y_offset,
            bytes: Cow::Owned(normalized),
        },
    )
}


/// A frame's bytes as stored in a raw sidecar: LZ4-compressed (format 8) when that is
/// smaller, otherwise unchanged (format 7).
pub fn encode_video_frame_bytes<'a>(bytes: &'a [u8]) -> (r: (u32, Cow<'a, [u8]>))
    ensures
        lz4_framed(bytes@).len() < bytes@.len() ==> r.0 == BGRA_LZ4_FORMAT_CODE && r.1@
            == lz4_framed(bytes@),
        lz4_framed(bytes@).len() >= bytes@.len() ==> r.0 == BGRA_FORMAT_CODE && r.1@ == bytes@,
{
    let compressed = lz4_compress_prepend_size(bytes);
    if compressed.len() < bytes.len() {
        (BGRA_LZ4_FORMAT_CODE, Cow::Owned(compressed))
    } else {
        (BGRA_FORMAT_CODE, Cow::Borrowed(bytes))
    }
}

/// The record a raw screen writer appends for a fitted frame: its timing, format, canvas size
/// and (possibly compressed) bytes.
pub fn screen_frame_record(
    frame: &NormalizedVideoFrame,
    elapsed_ms: u64,
    display_time_ms: u64,
) -> (r: Result<Vec<u8>, String>)
    ensures
        ({
            let compressed = lz4_framed(frame.bytes@);
            let (format_code, payload) = if compressed.len() < frame.bytes@.len() {
                (BGRA_LZ4_FORMAT_CODE, compressed)
            } else {
                (BGRA_FORMAT_CODE, frame.bytes@)
            };
            match r {
                Ok(record) => payload.len() <= u32::MAX && record@ == spec_video_header_bytes(
                    VideoFrameHeader {
                        elapsed_ms,
                        display_time_ms,
                        format_code,
                        width: frame.output_width,
                        height: frame.output_height,
                        byte_count: payload.len() as u32,
                    },
                ) + payload,
                Err(e) => payload.len() > u32::MAX && e@
                    == "Encoded BGRA frame is too large to write."@,
            }
        }),
{
    let (format_code, encoded) = encode_video_frame_bytes(cow_bytes(&frame.bytes));
    video_frame_record(
        elapsed_ms,
        display_time_ms,
        format_code,
        frame.output_width,
        frame.output_height,
        cow_bytes(&encoded),
    )
}

/// The bytes a borrowed-or-owned buffer holds.
pub fn cow_bytes<'b>(bytes: &'b Cow<'_, [u8]>) -> (r: &'b [u8])
    ensures
        r@ == bytes@,
{
    match bytes {
        Cow::Borrowed(b) => b,
        Cow::Owned(v) => v.as_slice(),
    }
}

/// A display or window as video capture addresses it.
#[derive(Debug, Clone, Copy, PartialEq, Eq, Structural)]
pub struct VideoTargetDescriptor {
    pub kind: CaptureVideoSourceKind,
    pub native_id: u32,
}

pub const WINDOW_VIDEO_UNSUPPORTED_ERROR: &'static str =
    "Window video capture is not supported on this platform.";

/// Video capture follows a display anywhere, a window where windows can be captured, and
/// never an application.
pub open spec fn spec_validate_video_target_kind(
    kind: CaptureVideoSourceKind,
    platform: PlatformBackend,
) -> Result<(), Seq<char>> {
    match kind {
        CaptureVideoSourceKind::Display => Ok(()),
        CaptureVideoSourceKind::Window => if platform.spec_window_sources_supported() {
            Ok(())
        } else {
            Err(WINDOW_VIDEO_UNSUPPORTED_ERROR@)
        },
        CaptureVideoSourceKind::Application => Err(APPLICATION_VIDEO_ERROR@),
    }
}

pub fn validate_video_target_kind(kind: CaptureVideoSourceKind, platform: PlatformBackend) -> (r:
    Result<(), String>)
    ensures
        match r {
            Ok(()) => spec_validate_video_target_kind(kind, platform) is Ok,
            Err(e) => spec_validate_video_target_kind(kind, platform) == Err::<(), Seq<char>>(e@),
        },
{
    match kind {
        CaptureVideoSourceKind::Display => Ok(()),
        CaptureVideoSourceKind::Window => if platform.window_sources_supported() {
            Ok(())
        } else {
            Err(String::from_str(WINDOW_VIDEO_UNSUPPORTED_ERROR))
        },
        CaptureVideoSourceKind::Application => Err(String::from_str(APPLICATION_VIDEO_ERROR)),
    }
}

/// A source id read as a video target: a display or (where supported) a window whose native
/// id is a `u32`.
pub open spec fn spec_parse_video_target(s: Seq<char>, platform: PlatformBackend) -> Result<
    VideoTargetDescriptor,
    Seq<char>,
> {
    match spec_parse_source_id(s) {
        Err(e) => Err(e),
        Ok((kind, native)) => match spec_validate_video_target_kind(kind, platform) {
            Err(e) => Err(e),
            Ok(()) => match parse_u32_spec(native) {
                None => Err("Selected "@ + kind.spec_label() + " id is invalid."@),
                Some(id) => Ok(VideoTargetDescriptor { kind, native_id: id }),
            },
        },
    }
}

pub open spec fn target_result_view(r: Result<VideoTargetDescriptor, String>) -> Result<
    VideoTargetDescriptor,
    Seq<char>,
> {
    match r {
        Ok(d) => Ok(d),
        Err(e) => Err(e@),
    }
}

pub fn parse_video_target_descriptor(source_id: &str, platform: PlatformBackend) -> (r: Result<
    VideoTargetDescriptor,
    String,
>)
    ensures
        target_result_view(r) == spec_parse_video_target(source_id@, platform),
{
    let parsed = match parse_capture_video_source_id(source_id) {
        Ok(p) => p,
        Err(e) => {
            return Err(e);
        },
    };
    match validate_video_target_kind(parsed.kind, platform) {
        Ok(()) => {},
        Err(e) => {
            return Err(e);
        },
    }
    match parse_u32(parsed.native_id.as_str()) {
        Some(native_id) => Ok(VideoTargetDescriptor { kind: parsed.kind, native_id }),
        None => Err(
            String::from_str("Selected ").concat(parsed.kind.label()).concat(" id is invalid."),
        ),
    }
}

/// The position of the first listed target equal to `descriptor`.
pub fn selected_video_target_index(
    descriptor: VideoTargetDescriptor,
    targets: &Vec<VideoTargetDescriptor>,
) -> (r: Option<usize>)
    ensures
        match r {
            Some(i) => i < targets@.len() && targets@[i as int] == descriptor && forall|j: int|
                0 <= j < i ==> targets@[j] != descriptor,
            None => forall|j: int| 0 <= j < targets@.len() ==> targets@[j] != descriptor,
        },
{
    let mut i: usize = 0;
    while i < targets.len()
        invariant
            i <= targets@.len(),
            forall|j: int| 0 <= j < i ==> targets@[j] != descriptor,
        decreases targets.len() - i,
    {
        let target = targets[i];
        if target.kind == descriptor.kind && target.native_id == descriptor.native_id {
            return Some(i);
        }
        i = i + 1;
    }
    None
}

/// The position, among the listed targets, of the one a source id names for video capture.
pub fn selected_video_target(
    source_id: &str,
    targets: &Vec<VideoTargetDescriptor>,
    platform: PlatformBackend,
) -> (r: Result<usize, String>)
    ensures
        match spec_parse_video_target(source_id@, platform) {
            Err(e) => r matches Err(m) && m@ == e,
            Ok(d) => match r {
                Ok(i) => i < targets@.len() && targets@[i as int] == d && forall|j: int|
                    0 <= j < i ==> targets@[j] != d,
                Err(m) => m@ == "The selected "@ + d.kind.spec_label() + " is no longer available."@
                    && forall|j: int| 0 <= j < targets@.len() ==> targets@[j] != d,
            },
        },
{
    let descriptor = match parse_video_target_descriptor(source_id, platform) {
        Ok(d) => d,
        Err(e) => {
            return Err(e);
        },
    };
    match selected_video_target_index(descriptor, targets) {
        Some(i) => Ok(i),
        None => Err(
            String::from_str("The selected ").concat(descriptor.kind.label()).concat(
                " is no longer available.",
            ),
        ),
    }
}

/// How a session's video sidecar is described in its metadata.
pub fn video_sidecar_format(path: &str) -> (r: &'static str)
    ensures
        r@ == if spec_is_chunked_video_path(path@) {
            "metafy chunked H.264 segment manifest v1"@
        } else {
            "metafy raw BGRA frame stream v1"@
        },
{
    if is_chunked_video_path(path) {
        "metafy chunked H.264 segment manifest v1"
    } else {
        "metafy raw BGRA frame stream v1"
    }
}

/// The failure of a capture: its errors joined by "; ", or none when there were none.
pub fn failure_message(errors: &Vec<String>) -> (r: Option<String>)
    ensures
        match r {
            Some(m) => errors@.len() > 0 && m@ == seq_join(string_views(errors@), "; "@),
            None => errors@.len() == 0,
        },
{
    if errors.len() == 0 {
        None
    } else {
        Some(join(errors, "; "))
    }
}

/// The PCM layout a capture recorded.
#[derive(Debug, Clone, PartialEq, Eq)]
pub struct AudioConfig {
    pub sample_rate: i64,
    pub channels: i64,
    pub sample_format: String,
}

/// What a running capture has recorded so far.
#[derive(Debug, Clone, PartialEq, Eq)]
pub struct ActiveRecordingSnapshot {
    pub session_id: String,
    pub frame_count: i64,
    pub microphone_audio_byte_count: i64,
    pub source_audio_byte_count: i64,
    pub width: Option<i64>,
    pub height: Option<i64>,
    pub duration_ms: i64,
    pub failure_message: Option<String>,
}

/// The size of the source being captured, when known.
#[derive(Debug, Clone, Copy, PartialEq, Eq, Structural)]
pub struct VideoSourceDimensions {
    pub width: Option<i64>,
    pub height: Option<i64>,
}

/// What a capture reports when it starts.
#[derive(Debug, Clone, PartialEq, Eq)]
pub struct StartedCapture {
    pub width: Option<i64>,
    pub height: Option<i64>,
    pub microphone_audio_config: Option<AudioConfig>,
    pub source_audio_config: Option<AudioConfig>,
}

/// The counters a capture keeps while it runs.
#[derive(Debug, Clone, PartialEq, Eq)]
pub struct CaptureStats {
    pub frame_count: i64,
    pub microphone_audio_byte_count: i64,
    pub source_audio_byte_count: i64,
    pub width: Option<i64>,
    pub height: Option<i64>,
    pub source_width: Option<i64>,
    pub source_height: Option<i64>,
    pub errors: Vec<String>,
}

/// The counters after one more frame was written at the given sizes.
pub fn stats_after_frame(stats: CaptureStats, frame: &NormalizedVideoFrame) -> (r: CaptureStats)
    requires
        stats.frame_count < i64::MAX,
    ensures
        r == (CaptureStats {
            frame_count: (stats.frame_count + 1) as i64,
            width: Some(frame.output_width as i64),
            height: Some(frame.output_height as i64),
            source_width: Some(frame.source_width as i64),
            source_height: Some(frame.source_height as i64),
            ..stats
        }),
{
    CaptureStats {
        frame_count: stats.frame_count + 1,
        width: Some(frame.output_width as i64),
        height: Some(frame.output_height as i64),
        source_width: Some(frame.source_width as i64),
        source_height: Some(frame.source_height as i64),
        ..stats
    }
}

/// The whole seconds since the Unix epoch, or none when the clock is before it.
#[verifier::external_body]
fn seconds_since_unix_epoch() -> (r: Option<u64>) {
    match std::time::UNIX_EPOCH.elapsed() {
        Ok(elapsed) => Some(elapsed.as_secs()),
        Err(_) => None,
    }
}

/// The current time as decimal seconds since the Unix epoch ("0" when the clock is before it).
pub fn current_timestamp_string() -> (r: String)
    ensures
        exists|seconds: u64| r@ == decimal(seconds as nat),
{
    let seconds = match seconds_since_unix_epoch() {
        Some(s) => s,
        None => 0,
    };
    u64_to_decimal(seconds)
}

/// What a capture reports when it stops.
#[derive(Debug, Clone, PartialEq, Eq)]
pub struct StoppedCapture {
    pub session_id: String,
    pub recording_id: String,
    pub status: RecordingSessionStatus,
    pub frame_count: i64,
    pub microphone_audio_byte_count: i64,
    pub source_audio_byte_count: i64,
    pub microphone_audio_config: Option<AudioConfig>,
    pub source_audio_config: Option<AudioConfig>,
    pub width: Option<i64>,
    pub height: Option<i64>,
    pub source_width: Option<i64>,
    pub source_height: Option<i64>,
    pub stopped_at: String,
    pub duration_ms: i64,
    pub failure_message: Option<String>,
    pub files: RecordingSessionFiles,
}

/// The recording of a stopped capture: failed and completed at the stop time when the
/// capture failed, otherwise processing (waiting to be encoded); its duration is the
/// capture's.
pub fn stopped_recording_update(stopped: &StoppedCapture) -> (r: UpdateRecordingInput)
    ensures
        r == (UpdateRecordingInput {
            id: stopped.recording_id,
            title: None,
            status: Some(
                if stopped.failure_message is Some {
                    RecordingStatus::Failed
                } else {
                    RecordingStatus::Processing
                },
            ),
            media_path: None,
            thumbnail_path: None,
            duration_ms: Some(stopped.duration_ms),
            captured_at: None,
            completed_at: if stopped.failure_message is Some {
                Some(stopped.stopped_at)
            } else {
                None
            },
            failure_message: stopped.failure_message,
        }),
{
    let failed = stopped.failure_message.is_some();
    UpdateRecordingInput {
        id: stopped.recording_id.clone(),
        title: None,
        status: Some(
            if failed {
                RecordingStatus::Failed
            } else {
                RecordingStatus::Processing
            },
        ),
        media_path: None,
        thumbnail_path: None,
        duration_ms: Some(stopped.duration_ms),
        captured_at: None,
        completed_at: if failed {
            Some(stopped.stopped_at.clone())
        } else {
            None
        },
        failure_message: crate::storage::clone_opt_string(&stopped.failure_message),
    }
}

/// The stored session of an active capture brought up to date with what the capture has
/// counted so far: frames, microphone and source audio bytes, dimensions once known, the
/// elapsed time and any failure.
pub fn session_with_snapshot(session: RecordingSession, snapshot: ActiveRecordingSnapshot) -> (r:
    RecordingSession)
    ensures
        r == (RecordingSession {
            frame_count: snapshot.frame_count,
            microphone_audio_byte_count: snapshot.microphone_audio_byte_count,
            source_audio_byte_count: snapshot.source_audio_byte_count,
            width: match snapshot.width {
                Some(w) => Some(w),
                None => session.width,
            },
            height: match snapshot.height {
                Some(h) => Some(h),
                None => session.height,
            },
            duration_ms: Some(snapshot.duration_ms),
            failure_message: snapshot.failure_message,
            ..session
        }),
{
    let mut session = session;
    session.frame_count = snapshot.frame_count;
    session.microphone_audio_byte_count = snapshot.microphone_audio_byte_count;
    session.source_audio_byte_count = snapshot.source_audio_byte_count;
    session.width = match snapshot.width {
        Some(w) => Some(w),
        None => session.width,
    };
    session.height = match snapshot.height {
        Some(h) => Some(h),
        None => session.height,
    };
    session.duration_ms = Some(snapshot.duration_ms);
    session.failure_message = snapshot.failure_message;
    session
}

/// The pixel layouts a screen capture delivers frames in.
#[derive(Debug, Clone, Copy, PartialEq, Eq, Structural)]
pub enum CapturedFrameLayout {
    Yuv,
    Rgb,
    Rgbx,
    Xbgr,
    Bgrx,
    Bgr0,
    Bgra,
}

/// The frame format code a layout is recorded under; BGRA frames are code 7.
pub open spec fn spec_frame_format_code(layout: CapturedFrameLayout) -> u32 {
    match layout {
        CapturedFrameLayout::Yuv => 1,
        CapturedFrameLayout::Rgb => 2,
        CapturedFrameLayout::Rgbx => 3,
        CapturedFrameLayout::Xbgr => 4,
        CapturedFrameLayout::Bgrx => 5,
        CapturedFrameLayout::Bgr0 => 6,
        CapturedFrameLayout::Bgra => 7,
    }
}

pub fn frame_format_code(layout: CapturedFrameLayout) -> (r: u32)
    ensures
        r == spec_frame_format_code(layout),
        (r == BGRA_FORMAT_CODE) == (layout == CapturedFrameLayout::Bgra),
{
    match layout {
        CapturedFrameLayout::Yuv => 1,
        CapturedFrameLayout::Rgb => 2,
        CapturedFrameLayout::Rgbx => 3,
        CapturedFrameLayout::Xbgr => 4,
        CapturedFrameLayout::Bgrx => 5,
        CapturedFrameLayout::Bgr0 => 6,
        CapturedFrameLayout::Bgra => 7,
    }
}

/// A captured frame's side as recorded: a negative side counts as zero.
pub fn captured_frame_side(side: i32) -> (r: u32)
    ensures
        r == if side < 0 {
            0
        } else {
            side as int
        },
{
    if side < 0 {
        0
    } else {
        side as u32
    }
}

/// The sample formats system audio capture delivers.
#[derive(Debug, Clone, Copy, PartialEq, Eq, Structural)]
pub enum CapturedAudioFormat {
    I8,
    I16,
    I32,
    I64,
    U8,
    U16,
    U32,
    U64,
    F32,
    F64,
    Other,
}

/// The name a captured audio format is recorded under.
pub open spec fn spec_audio_format_name(format: CapturedAudioFormat) -> Seq<char> {
    match format {
        CapturedAudioFormat::I8 => "i8"@,
        CapturedAudioFormat::I16 => "i16"@,
        CapturedAudioFormat::I32 => "i32"@,
        CapturedAudioFormat::I64 => "i64"@,
        CapturedAudioFormat::U8 => "u8"@,
        CapturedAudioFormat::U16 => "u16"@,
        CapturedAudioFormat::U32 => "u32"@,
        CapturedAudioFormat::U64 => "u64"@,
        CapturedAudioFormat::F32 => "f32"@,
        CapturedAudioFormat::F64 => "f64"@,
        CapturedAudioFormat::Other => "unknown"@,
    }
}

pub fn source_audio_sample_format(format: CapturedAudioFormat) -> (r: String)
    ensures
        r@ == spec_audio_format_name(format),
{
    let name = match format {
        CapturedAudioFormat::I8 => "i8",
        CapturedAudioFormat::I16 => "i16",
        CapturedAudioFormat::I32 => "i32",
        CapturedAudioFormat::I64 => "i64",
        CapturedAudioFormat::U8 => "u8",
        CapturedAudioFormat::U16 => "u16",
        CapturedAudioFormat::U32 => "u32",
        CapturedAudioFormat::U64 => "u64",
        CapturedAudioFormat::F32 => "f32",
        CapturedAudioFormat::F64 => "f64",
        CapturedAudioFormat::Other => "unknown",
    };
    String::from_str(name)
}

} // verus!

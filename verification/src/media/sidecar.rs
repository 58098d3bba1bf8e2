//! The capture sidecar files: a magic line, then records each made of a fixed little-endian
//! header and a payload. Video records hold one frame (raw BGRA, or BGRA compressed with LZ4
//! behind its decoded size); audio records hold one block of interleaved PCM bytes.
use vstd::bytes::{
    lemma_auto_spec_u32_to_from_le_bytes, lemma_auto_spec_u64_to_from_le_bytes,
    spec_u32_from_le_bytes, spec_u32_to_le_bytes, spec_u64_from_le_bytes, spec_u64_to_le_bytes,
    u32_from_le_bytes, u32_to_le_bytes, u64_from_le_bytes, u64_to_le_bytes,
};
use vstd::prelude::*;
use vstd::slice::slice_subrange;
use vstd::string::*;

use crate::media::audio::{is_supported_pcm_sample_format, spec_supported_pcm_sample_format};
use crate::text::{decimal, u64_to_decimal};

verus! {

pub const VIDEO_FILE_MAGIC: &'static str = "METAFY_RAW_VIDEO_V1\n";

pub const AUDIO_FILE_MAGIC: &'static str = "METAFY_RAW_AUDIO_V1\n";

pub const BGRA_FORMAT_CODE: u32 = 7;

pub const BGRA_LZ4_FORMAT_CODE: u32 = 8;

/// Bytes in the header of a video record: two `u64` timestamps, then format, width, height
/// and payload length as `u32`.
pub const VIDEO_FRAME_HEADER_LEN: usize = 32;

/// Bytes in the header of an audio record: three `u64` timestamps and the payload length as a
/// `u32`.
pub const AUDIO_BLOCK_HEADER_LEN: usize = 28;

/// The bytes of a magic line (each character's low byte).
pub open spec fn magic_bytes_of(magic: Seq<char>) -> Seq<u8> {
    magic.map_values(|c: char| c as u8)
}

pub fn magic_bytes(magic: &str) -> (r: Vec<u8>)
    ensures
        r@ == magic_bytes_of(magic@),
{
    let n = magic.unicode_len();
    let mut bytes: Vec<u8> = Vec::new();
    let mut i: usize = 0;
    while i < n
        invariant
            n == magic@.len(),
            i <= n,
            bytes@ == magic_bytes_of(magic@.subrange(0, i as int)),
        decreases n - i,
    {
        let c = magic.get_char(i);
        bytes.push(c as u8);
        i = i + 1;
        assert(bytes@ =~= magic_bytes_of(magic@.subrange(0, i as int)));
    }
    assert(magic@.subrange(0, n as int) =~= magic@);
    bytes
}

/// "Captured <label> sidecar <path> has an unsupported format."
pub open spec fn unsupported_sidecar_message(label: Seq<char>, path: Seq<char>) -> Seq<char> {
    "Captured "@ + label + " sidecar "@ + path + " has an unsupported format."@
}

/// Checks the first bytes of a sidecar against its magic line.
pub fn expect_magic(actual: &[u8], magic: &str, label: &str, path: &str) -> (r: Result<(), String>)
    ensures
        r is Ok <==> actual@ == magic_bytes_of(magic@),
        r matches Err(e) ==> e@ == unsupported_sidecar_message(label@, path@),
{
    let expected = magic_bytes(magic);
    if actual.len() == expected.len() {
        let mut i: usize = 0;
        while i < expected.len()
            invariant
                i <= expected@.len(),
                expected@ == magic_bytes_of(magic@),
                actual@.len() == expected@.len(),
                actual@.subrange(0, i as int) == expected@.subrange(0, i as int),
            decreases expected@.len() - i,
        {
            if actual[i] != expected[i] {
                return Err(
                    String::from_str("Captured ").concat(label).concat(" sidecar ").concat(
                        path,
                    ).concat(" has an unsupported format."),
                );
            }
            assert(actual@.subrange(0, i + 1) =~= actual@.subrange(0, i as int).push(
                actual@[i as int],
            ));
            assert(expected@.subrange(0, i + 1) =~= expected@.subrange(0, i as int).push(
                expected@[i as int],
            ));
            i = i + 1;
        }
        assert(actual@ =~= actual@.subrange(0, i as int));
        assert(expected@ =~= expected@.subrange(0, i as int));
        return Ok(());
    }
    Err(
        String::from_str("Captured ").concat(label).concat(" sidecar ").concat(path).concat(
            " has an unsupported format.",
        ),
    )
}

/// The header of one video record.
#[derive(Debug, Clone, Copy, PartialEq, Eq, Structural)]
pub struct VideoFrameHeader {
    pub elapsed_ms: u64,
    pub display_time_ms: u64,
    pub format_code: u32,
    pub width: u32,
    pub height: u32,
    pub byte_count: u32,
}

/// The bytes of a video record header.
pub open spec fn spec_video_header_bytes(header: VideoFrameHeader) -> Seq<u8> {
    spec_u64_to_le_bytes(header.elapsed_ms) + spec_u64_to_le_bytes(header.display_time_ms)
        + spec_u32_to_le_bytes(header.format_code) + spec_u32_to_le_bytes(header.width)
        + spec_u32_to_le_bytes(header.height) + spec_u32_to_le_bytes(header.byte_count)
}

/// The video record header that 32 bytes hold.
pub open spec fn spec_parse_video_header(bytes: Seq<u8>) -> VideoFrameHeader {
    VideoFrameHeader {
        elapsed_ms: spec_u64_from_le_bytes(bytes.subrange(0, 8)),
        display_time_ms: spec_u64_from_le_bytes(bytes.subrange(8, 16)),
        format_code: spec_u32_from_le_bytes(bytes.subrange(16, 20)),
        width: spec_u32_from_le_bytes(bytes.subrange(20, 24)),
        height: spec_u32_from_le_bytes(bytes.subrange(24, 28)),
        byte_count: spec_u32_from_le_bytes(bytes.subrange(28, 32)),
    }
}

pub fn encode_video_frame_header(header: &VideoFrameHeader) -> (r: Vec<u8>)
    ensures
        r@ == spec_video_header_bytes(*header),
        r@.len() == VIDEO_FRAME_HEADER_LEN,
{
    proof {
        lemma_auto_spec_u32_to_from_le_bytes();
        lemma_auto_spec_u64_to_from_le_bytes();
    }
    let mut bytes = u64_to_le_bytes(header.elapsed_ms);
    bytes.append(&mut u64_to_le_bytes(header.display_time_ms));
    bytes.append(&mut u32_to_le_bytes(header.format_code));
    bytes.append(&mut u32_to_le_bytes(header.width));
    bytes.append(&mut u32_to_le_bytes(header.height));
    bytes.append(&mut u32_to_le_bytes(header.byte_count));
    bytes
}

pub fn parse_video_frame_header(bytes: &[u8]) -> (r: VideoFrameHeader)
    requires
        bytes@.len() == VIDEO_FRAME_HEADER_LEN,
    ensures
        r == spec_parse_video_header(bytes@),
{
    VideoFrameHeader {
        elapsed_ms: u64_from_le_bytes(slice_subrange(bytes, 0, 8)),
        display_time_ms: u64_from_le_bytes(slice_subrange(bytes, 8, 16)),
        format_code: u32_from_le_bytes(slice_subrange(bytes, 16, 20)),
        width: u32_from_le_bytes(slice_subrange(bytes, 20, 24)),
        height: u32_from_le_bytes(slice_subrange(bytes, 24, 28)),
        byte_count: u32_from_le_bytes(slice_subrange(bytes, 28, 32)),
    }
}

/// A video record header written by the recorder is read back unchanged.
pub proof fn lemma_video_header_round_trip(header: VideoFrameHeader)
    ensures
        spec_video_header_bytes(header).len() == VIDEO_FRAME_HEADER_LEN,
        spec_parse_video_header(spec_video_header_bytes(header)) == header,
{
    lemma_auto_spec_u32_to_from_le_bytes();
    lemma_auto_spec_u64_to_from_le_bytes();
    let b = spec_video_header_bytes(header);
    assert(b.subrange(0, 8) =~= spec_u64_to_le_bytes(header.elapsed_ms));
    assert(b.subrange(8, 16) =~= spec_u64_to_le_bytes(header.display_time_ms));
    assert(b.subrange(16, 20) =~= spec_u32_to_le_bytes(header.format_code));
    assert(b.subrange(20, 24) =~= spec_u32_to_le_bytes(header.width));
    assert(b.subrange(24, 28) =~= spec_u32_to_le_bytes(header.height));
    assert(b.subrange(28, 32) =~= spec_u32_to_le_bytes(header.byte_count));
}

/// The header of one audio record.
#[derive(Debug, Clone, Copy, PartialEq, Eq, Structural)]
pub struct AudioBlockHeader {
    pub elapsed_ms: u64,
    pub callback_stream_ns: u64,
    pub capture_stream_ns: u64,
    pub byte_count: u32,
}

pub open spec fn spec_audio_header_bytes(header: AudioBlockHeader) -> Seq<u8> {
    spec_u64_to_le_bytes(header.elapsed_ms) + spec_u64_to_le_bytes(header.callback_stream_ns)
        + spec_u64_to_le_bytes(header.capture_stream_ns) + spec_u32_to_le_bytes(header.byte_count)
}

pub open spec fn spec_parse_audio_header(bytes: Seq<u8>) -> AudioBlockHeader {
    AudioBlockHeader {
        elapsed_ms: spec_u64_from_le_bytes(bytes.subrange(0, 8)),
        callback_stream_ns: spec_u64_from_le_bytes(bytes.subrange(8, 16)),
        capture_stream_ns: spec_u64_from_le_bytes(bytes.subrange(16, 24)),
        byte_count: spec_u32_from_le_bytes(bytes.subrange(24, 28)),
    }
}

pub fn encode_audio_block_header(header: &AudioBlockHeader) -> (r: Vec<u8>)
    ensures
        r@ == spec_audio_header_bytes(*header),
        r@.len() == AUDIO_BLOCK_HEADER_LEN,
{
    proof {
        lemma_auto_spec_u32_to_from_le_bytes();
        lemma_auto_spec_u64_to_from_le_bytes();
    }
    let mut bytes = u64_to_le_bytes(header.elapsed_ms);
    bytes.append(&mut u64_to_le_bytes(header.callback_stream_ns));
    bytes.append(&mut u64_to_le_bytes(header.capture_stream_ns));
    bytes.append(&mut u32_to_le_bytes(header.byte_count));
    bytes
}

pub fn parse_audio_block_header(bytes: &[u8]) -> (r: AudioBlockHeader)
    requires
        bytes@.len() == AUDIO_BLOCK_HEADER_LEN,
    ensures
        r == spec_parse_audio_header(bytes@),
{
    AudioBlockHeader {
        elapsed_ms: u64_from_le_bytes(slice_subrange(bytes, 0, 8)),
        callback_stream_ns: u64_from_le_bytes(slice_subrange(bytes, 8, 16)),
        capture_stream_ns: u64_from_le_bytes(slice_subrange(bytes, 16, 24)),
        byte_count: u32_from_le_bytes(slice_subrange(bytes, 24, 28)),
    }
}

/// An audio record header written by the recorder is read back unchanged.
pub proof fn lemma_audio_header_round_trip(header: AudioBlockHeader)
    ensures
        spec_audio_header_bytes(header).len() == AUDIO_BLOCK_HEADER_LEN,
        spec_parse_audio_header(spec_audio_header_bytes(header)) == header,
{
    lemma_auto_spec_u32_to_from_le_bytes();
    lemma_auto_spec_u64_to_from_le_bytes();
    let b = spec_audio_header_bytes(header);
    assert(b.subrange(0, 8) =~= spec_u64_to_le_bytes(header.elapsed_ms));
    assert(b.subrange(8, 16) =~= spec_u64_to_le_bytes(header.callback_stream_ns));
    assert(b.subrange(16, 24) =~= spec_u64_to_le_bytes(header.capture_stream_ns));
    assert(b.subrange(24, 28) =~= spec_u32_to_le_bytes(header.byte_count));
}


/// The LZ4 block that `lz4_flex::compress_prepend_size` writes after its four-byte size
/// prefix.
pub uninterp spec fn lz4_block(input: Seq<u8>) -> Seq<u8>;

/// What `lz4_flex::decompress_size_prepended` gives back for an input, when it succeeds.
pub uninterp spec fn lz4_decoded(input: Seq<u8>) -> Option<Seq<u8>>;

/// A frame as `lz4_flex::compress_prepend_size` writes it: the length as a little-endian
/// `u32`, then the LZ4 block.
pub open spec fn lz4_framed(input: Seq<u8>) -> Seq<u8> {
    spec_u32_to_le_bytes(input.len() as u32) + lz4_block(input)
}

/// `lz4_flex::compress_prepend_size`: the input's length (as a `u32`, little-endian) followed
/// by the LZ4 block of the input. The block itself is not described; it is named.
#[verifier::external_body]
pub(crate) fn lz4_compress_prepend_size(input: &[u8]) -> (r: Vec<u8>)
    ensures
        r@ == spec_u32_to_le_bytes(input@.len() as u32) + lz4_block(input@),
{
    lz4_flex::compress_prepend_size(input)
}

/// `lz4_flex::decompress_size_prepended`: it reads the little-endian `u32` size prefix
/// (failing on fewer than four bytes), decodes the rest into a buffer of that size and returns
/// what was decoded, which is never longer than the prefix. Decoding what
/// `compress_prepend_size` wrote gives back its input. On failure the crate's error is
/// returned as its message, which is not described.
#[verifier::external_body]
pub(crate) fn lz4_decompress_size_prepended(input: &[u8]) -> (r: Result<Vec<u8>, String>)
    ensures
        lz4_decoded(input@) is Some ==> r is Ok,
        r is Ok ==> lz4_decoded(input@) is Some,
        r matches Ok(v) ==> lz4_decoded(input@) == Some(v@),
        r is Err || input@.len() >= 4,
        r matches Ok(v) ==> v@.len() <= spec_u32_from_le_bytes(input@.subrange(0, 4)),
        r is Ok || forall|x: Seq<u8>| x.len() > u32::MAX || #[trigger] lz4_framed(x) != input@,
        r matches Ok(v) ==> forall|x: Seq<u8>|
            x.len() <= u32::MAX && #[trigger] lz4_framed(x) == input@ ==> v@ == x,
{
    match lz4_flex::decompress_size_prepended(input) {
        Ok(decoded) => Ok(decoded),
        Err(error) => Err(format!("{error}")),
    }
}

/// One frame read from a raw video sidecar.
#[derive(Debug, Clone, PartialEq, Eq)]
pub struct RawVideoFrame {
    pub elapsed_ms: u64,
    pub display_time_ms: u64,
    pub width: u32,
    pub height: u32,
    pub bytes: Vec<u8>,
}

pub open spec fn dims(width: u32, height: u32) -> Seq<char> {
    decimal(width as nat) + "x"@ + decimal(height as nat)
}

fn dims_text(width: u32, height: u32) -> (r: String)
    ensures
        r@ == dims(width, height),
{
    u64_to_decimal(width as u64).concat("x").concat(u64_to_decimal(height as u64).as_str())
}

pub open spec fn sidecar_prefix(path: Seq<char>) -> Seq<char> {
    "Raw video sidecar "@ + path
}

/// The frame an LZ4 payload decodes to, or why it does not: no size prefix, a prefix other
/// than the frame size, a payload the decoder refuses, or a decoded length other than the frame
/// size.
pub fn decompress_lz4_bgra_frame(
    bytes: &[u8],
    expected_byte_count: usize,
    width: u32,
    height: u32,
    path: &str,
) -> (r: Result<Vec<u8>, String>)
    ensures
        bytes@.len() < 4 ==> (r matches Err(e) && e@ == sidecar_prefix(path@)
            + " compressed frame is missing its decoded size prefix."@),
        bytes@.len() >= 4 && spec_u32_from_le_bytes(bytes@.subrange(0, 4)) != expected_byte_count
            ==> (r matches Err(e) && e@ == sidecar_prefix(path@) + " compressed frame decodes to "@
            + decimal(spec_u32_from_le_bytes(bytes@.subrange(0, 4)) as nat) + " bytes; expected "@
            + decimal(expected_byte_count as nat) + " for "@ + dims(width, height) + " BGRA."@),
        bytes@.len() >= 4 && spec_u32_from_le_bytes(bytes@.subrange(0, 4)) == expected_byte_count
            ==> match lz4_decoded(bytes@) {
            None => r matches Err(e) && e@.len() >= ("Unable to decompress raw video frame from "@
                + path@ + ": "@).len() && e@.subrange(
                0,
                ("Unable to decompress raw video frame from "@ + path@ + ": "@).len() as int,
            ) == "Unable to decompress raw video frame from "@ + path@ + ": "@,
            Some(decoded) => if decoded.len() == expected_byte_count {
                r matches Ok(v) && v@ == decoded
            } else {
                r matches Err(e) && e@ == sidecar_prefix(path@)
                    + " decompressed frame has "@ + decimal(decoded.len()) + " bytes; expected "@
                    + decimal(expected_byte_count as nat) + " for "@ + dims(width, height)
                    + " BGRA."@
            },
        },
        forall|x: Seq<u8>|
            x.len() == expected_byte_count && x.len() <= u32::MAX && #[trigger] lz4_framed(x)
                == bytes@ ==> (r matches Ok(v) && v@ == x),
{
    proof {
        lemma_auto_spec_u32_to_from_le_bytes();
    }
    if bytes.len() < 4 {
        return Err(
            String::from_str("Raw video sidecar ").concat(path).concat(
                " compressed frame is missing its decoded size prefix.",
            ),
        );
    }
    let decoded_byte_count = u32_from_le_bytes(slice_subrange(bytes, 0, 4));
    proof {
        assert forall|x: Seq<u8>|
            x.len() == expected_byte_count && x.len() <= u32::MAX && #[trigger] lz4_framed(x)
                == bytes@ implies spec_u32_from_le_bytes(bytes@.subrange(0, 4))
            == expected_byte_count by {
            assert(bytes@.subrange(0, 4) =~= spec_u32_to_le_bytes(x.len() as u32));
        }
    }
    if decoded_byte_count as u64 != expected_byte_count as u64 {
        return Err(
            String::from_str("Raw video sidecar ").concat(path).concat(
                " compressed frame decodes to ",
            ).concat(u64_to_decimal(decoded_byte_count as u64).as_str()).concat(
                " bytes; expected ",
            ).concat(u64_to_decimal(expected_byte_count as u64).as_str()).concat(" for ").concat(
                dims_text(width, height).as_str(),
            ).concat(" BGRA."),
        );
    }
    let decoded = match lz4_decompress_size_prepended(bytes) {
        Ok(decoded) => decoded,
        Err(error) => {
            let message = String::from_str("Unable to decompress raw video frame from ").concat(
                path,
            ).concat(": ").concat(error.as_str());
            proof {
                let prefix = "Unable to decompress raw video frame from "@ + path@ + ": "@;
                assert(message@.subrange(0, prefix.len() as int) =~= prefix);
            }
            return Err(message);
        },
    };
    if decoded.len() != expected_byte_count {
        return Err(
            String::from_str("Raw video sidecar ").concat(path).concat(
                " decompressed frame has ",
            ).concat(u64_to_decimal(decoded.len() as u64).as_str()).concat(" bytes; expected ").concat(
                u64_to_decimal(expected_byte_count as u64).as_str(),
            ).concat(" for ").concat(dims_text(width, height).as_str()).concat(" BGRA."),
        );
    }
    Ok(decoded)
}

/// The frame size in bytes for a raw video sidecar, or why it cannot be held.
pub fn frame_byte_count(width: u32, height: u32, path: &str) -> (r: Result<usize, String>)
    ensures
        match r {
            Ok(n) => n == width * height * 4,
            Err(e) => width * height * 4 > usize::MAX && e@ == sidecar_prefix(path@)
                + " frame dimensions are too large to encode."@,
        },
{
    let w = width as usize;
    let h = height as usize;
    let message = String::from_str("Raw video sidecar ").concat(path).concat(
        " frame dimensions are too large to encode.",
    );
    match w.checked_mul(h) {
        Some(pixels) => match pixels.checked_mul(4) {
            Some(n) => Ok(n),
            None => Err(message),
        },
        None => {
            assert(w * h * 4 > usize::MAX) by (nonlinear_arith)
                requires
                    w * h > usize::MAX,
            ;
            Err(message)
        },
    }
}

/// The reading state of a raw video sidecar: where it is, and the frame size it has settled
/// on (both sides known or neither).
#[derive(Debug, Clone, PartialEq, Eq)]
pub struct RawVideoStream {
    pub path: String,
    pub width: Option<u32>,
    pub height: Option<u32>,
}

impl RawVideoStream {
    pub open spec fn well_formed(self) -> bool {
        self.width is Some == self.height is Some
    }

    pub fn new(path: String) -> (r: RawVideoStream)
        ensures
            r.path == path,
            r.width is None,
            r.height is None,
            r.well_formed(),
    {
        RawVideoStream { path, width: None, height: None }
    }

    /// Checks the size of the next frame against the stream: both sides positive, and equal to
    /// the first frame's; the first frame fixes the size. Returns the frame's byte count.
    pub fn accept_header(&mut self, header: &VideoFrameHeader) -> (r: Result<usize, String>)
        requires
            old(self).well_formed(),
        ensures
            final(self).well_formed(),
            final(self).path == old(self).path,
            header.width == 0 || header.height == 0 ==> {
                &&& r matches Err(e) && e@ == sidecar_prefix(old(self).path@)
                    + " has invalid frame dimensions "@ + dims(header.width, header.height) + "."@
                &&& *final(self) == *old(self)
            },
            header.width != 0 && header.height != 0 && old(self).width is Some && (header.width
                != old(self).width.unwrap() || header.height != old(self).height.unwrap()) ==> {
                &&& r matches Err(e) && e@ == sidecar_prefix(old(self).path@)
                    + " changed frame dimensions from "@ + dims(
                    old(self).width.unwrap(),
                    old(self).height.unwrap(),
                ) + " to "@ + dims(
                    header.width,
                    header.height,
                ) + "."@
                &&& *final(self) == *old(self)
            },
            header.width != 0 && header.height != 0 && (old(self).width is None || (old(
                self,
            ).width == Some(header.width) && old(self).height == Some(header.height))) ==> {
                &&& final(self).width == Some(header.width)
                &&& final(self).height == Some(header.height)
                &&& match r {
                    Ok(n) => n == header.width * header.height * 4,
                    Err(e) => header.width * header.height * 4 > usize::MAX && e@ == sidecar_prefix(
                        old(self).path@,
                    ) + " frame dimensions are too large to encode."@,
                }
            },
    {
        let width = header.width;
        let height = header.height;
        if width == 0 || height == 0 {
            return Err(
                String::from_str("Raw video sidecar ").concat(self.path.as_str()).concat(
                    " has invalid frame dimensions ",
                ).concat(dims_text(width, height).as_str()).concat("."),
            );
        }
        match (self.width, self.height) {
            (Some(expected_width), Some(expected_height)) => {
                if width != expected_width || height != expected_height {
                    return Err(
                        String::from_str("Raw video sidecar ").concat(self.path.as_str()).concat(
                            " changed frame dimensions from ",
                        ).concat(dims_text(expected_width, expected_height).as_str()).concat(
                            " to ",
                        ).concat(dims_text(width, height).as_str()).concat("."),
                    );
                }
            },
            _ => {
                self.width = Some(width);
                self.height = Some(height);
            },
        }
        frame_byte_count(width, height, self.path.as_str())
    }

    /// The frame a record's payload holds: raw BGRA of the frame size, or LZ4-compressed BGRA
    /// that decodes to it; any other format is refused.
    pub fn frame_from_payload(
        &self,
        header: &VideoFrameHeader,
        encoded: Vec<u8>,
        expected_byte_count: usize,
    ) -> (r: Result<RawVideoFrame, String>)
        requires
            encoded@.len() == header.byte_count,
            expected_byte_count == header.width * header.height * 4,
        ensures
            r matches Ok(frame) ==> frame.elapsed_ms == header.elapsed_ms
                && frame.display_time_ms == header.display_time_ms && frame.width == header.width
                && frame.height == header.height,
            header.format_code == BGRA_FORMAT_CODE ==> if header.byte_count == expected_byte_count {
                r matches Ok(frame) && frame.bytes@ == encoded@
            } else {
                r matches Err(e) && e@ == sidecar_prefix(self.path@) + " frame has "@ + decimal(
                    header.byte_count as nat,
                ) + " bytes; expected "@ + decimal(expected_byte_count as nat) + " for "@ + dims(
                    header.width,
                    header.height,
                ) + " BGRA."@
            },
            header.format_code == BGRA_LZ4_FORMAT_CODE ==> forall|x: Seq<u8>|
                x.len() == expected_byte_count && x.len() <= u32::MAX && #[trigger] lz4_framed(x)
                    == encoded@ ==> (r matches Ok(frame) && frame.bytes@ == x),
            header.format_code == BGRA_LZ4_FORMAT_CODE ==> (r matches Ok(frame) ==> lz4_decoded(
                encoded@,
            ) == Some(frame.bytes@) && frame.bytes@.len() == expected_byte_count),
            header.format_code == BGRA_LZ4_FORMAT_CODE ==> (r is Ok <==> ({
                &&& encoded@.len() >= 4
                &&& spec_u32_from_le_bytes(encoded@.subrange(0, 4)) == expected_byte_count
                &&& lz4_decoded(encoded@) is Some
                &&& lz4_decoded(encoded@)->0.len() == expected_byte_count
            })),
            header.format_code != BGRA_FORMAT_CODE && header.format_code != BGRA_LZ4_FORMAT_CODE
                ==> (r matches Err(e) && e@ == sidecar_prefix(self.path@)
                + " has unsupported frame format "@ + decimal(header.format_code as nat)
                + "; expected BGRA."@),
    {
        let bytes = if header.format_code == BGRA_FORMAT_CODE {
            if header.byte_count as u64 != expected_byte_count as u64 {
                return Err(
                    String::from_str("Raw video sidecar ").concat(self.path.as_str()).concat(
                        " frame has ",
                    ).concat(u64_to_decimal(header.byte_count as u64).as_str()).concat(
                        " bytes; expected ",
                    ).concat(u64_to_decimal(expected_byte_count as u64).as_str()).concat(
                        " for ",
                    ).concat(dims_text(header.width, header.height).as_str()).concat(" BGRA."),
                );
            }
            encoded
        } else if header.format_code == BGRA_LZ4_FORMAT_CODE {
            match decompress_lz4_bgra_frame(
                encoded.as_slice(),
                expected_byte_count,
                header.width,
                header.height,
                self.path.as_str(),
            ) {
                Ok(decoded) => decoded,
                Err(e) => {
                    return Err(e);
                },
            }
        } else {
            return Err(
                String::from_str("Raw video sidecar ").concat(self.path.as_str()).concat(
                    " has unsupported frame format ",
                ).concat(u64_to_decimal(header.format_code as u64).as_str()).concat(
                    "; expected BGRA.",
                ),
            );
        };
        Ok(
            RawVideoFrame {
                elapsed_ms: header.elapsed_ms,
                display_time_ms: header.display_time_ms,
                width: header.width,
                height: header.height,
                bytes,
            },
        )
    }
}

/// The bytes of one video record: its header, then the payload.
pub fn video_frame_record(
    elapsed_ms: u64,
    display_time_ms: u64,
    format_code: u32,
    width: u32,
    height: u32,
    payload: &[u8],
) -> (r: Result<Vec<u8>, String>)
    ensures
        match r {
            Ok(record) => payload@.len() <= u32::MAX && record@ == spec_video_header_bytes(
                VideoFrameHeader {
                    elapsed_ms,
                    display_time_ms,
                    format_code,
                    width,
                    height,
                    byte_count: payload@.len() as u32,
                },
            ) + payload@,
            Err(e) => payload@.len() > u32::MAX && e@ == "Encoded BGRA frame is too large to write."@,
        },
{
    if payload.len() as u64 > 4294967295u64 {
        return Err(String::from_str("Encoded BGRA frame is too large to write."));
    }
    let header = VideoFrameHeader {
        elapsed_ms,
        display_time_ms,
        format_code,
        width,
        height,
        byte_count: payload.len() as u32,
    };
    let mut record = encode_video_frame_header(&header);
    record.extend_from_slice(payload);
    Ok(record)
}

/// The bytes of one audio record: its header (the length saturated at `u32::MAX`), then the
/// payload.
pub fn audio_block_record(
    elapsed_ms: u64,
    callback_stream_ns: u64,
    capture_stream_ns: u64,
    payload: &[u8],
) -> (r: Vec<u8>)
    ensures
        r@ == spec_audio_header_bytes(
            AudioBlockHeader {
                elapsed_ms,
                callback_stream_ns,
                capture_stream_ns,
                byte_count: if payload@.len() <= u32::MAX {
                    payload@.len() as u32
                } else {
                    u32::MAX
                },
            },
        ) + payload@,
{
    let byte_count: u32 = if payload.len() as u64 <= 4294967295u64 {
        payload.len() as u32
    } else {
        u32::MAX
    };
    let header = AudioBlockHeader { elapsed_ms, callback_stream_ns, capture_stream_ns, byte_count };
    let mut record = encode_audio_block_header(&header);
    record.extend_from_slice(payload);
    record
}

/// The PCM layout of a captured audio sidecar.
#[derive(Debug, Clone, PartialEq, Eq)]
pub struct RawAudioFormat {
    pub sample_rate: i64,
    pub channels: i64,
    pub sample_format: String,
}

/// What a recording session lacks to describe its audio.
#[derive(Debug, Clone, Copy, PartialEq, Eq, Structural)]
pub enum RawAudioMetadataError {
    MissingSampleRate,
    MissingChannels,
    MissingSampleFormat,
    UnsupportedSampleFormat,
}

impl RawAudioFormat {
    /// The audio format a session recorded, checked in this order: a positive sample rate, a
    /// positive channel count, a sample format, and a supported one; accepted when all hold.
    pub fn from_session_metadata(
        sample_rate: Option<i64>,
        channels: Option<i64>,
        sample_format: Option<String>,
    ) -> (r: Result<RawAudioFormat, RawAudioMetadataError>)
        ensures
            match r {
                Ok(format) => sample_rate == Some(format.sample_rate) && format.sample_rate > 0
                    && channels == Some(format.channels) && format.channels > 0 && sample_format
                    == Some(format.sample_format) && spec_supported_pcm_sample_format(
                    format.sample_format@,
                ),
                Err(e) => e == if !(sample_rate matches Some(rate) && rate > 0) {
                    RawAudioMetadataError::MissingSampleRate
                } else if !(channels matches Some(count) && count > 0) {
                    RawAudioMetadataError::MissingChannels
                } else if sample_format is None {
                    RawAudioMetadataError::MissingSampleFormat
                } else {
                    RawAudioMetadataError::UnsupportedSampleFormat
                },
            },
            ({
                &&& sample_rate is Some && sample_rate->0 > 0
                &&& channels is Some && channels->0 > 0
                &&& sample_format is Some && spec_supported_pcm_sample_format(sample_format->0@)
            }) ==> r is Ok,
    {
        let sample_rate = match sample_rate {
            Some(rate) if rate > 0 => rate,
            _ => {
                return Err(RawAudioMetadataError::MissingSampleRate);
            },
        };
        let channels = match channels {
            Some(count) if count > 0 => count,
            _ => {
                return Err(RawAudioMetadataError::MissingChannels);
            },
        };
        let sample_format = match sample_format {
            Some(format) => format,
            None => {
                return Err(RawAudioMetadataError::MissingSampleFormat);
            },
        };
        if !is_supported_pcm_sample_format(sample_format.as_str()) {
            return Err(RawAudioMetadataError::UnsupportedSampleFormat);
        }
        Ok(RawAudioFormat { sample_rate, channels, sample_format })
    }
}

/// One block read from a raw audio sidecar.
#[derive(Debug, Clone, PartialEq, Eq)]
pub struct RawAudioBlock {
    pub elapsed_ms: u64,
    pub callback_stream_ns: u64,
    pub capture_stream_ns: u64,
    pub bytes: Vec<u8>,
}

impl RawAudioBlock {
    /// The block a record holds, given its header and the payload read after it.
    pub fn from_record(header: &AudioBlockHeader, bytes: Vec<u8>) -> (r: RawAudioBlock)
        ensures
            r.elapsed_ms == header.elapsed_ms,
            r.callback_stream_ns == header.callback_stream_ns,
            r.capture_stream_ns == header.capture_stream_ns,
            r.bytes == bytes,
    {
        RawAudioBlock {
            elapsed_ms: header.elapsed_ms,
            callback_stream_ns: header.callback_stream_ns,
            capture_stream_ns: header.capture_stream_ns,
            bytes,
        }
    }
}

} // verus!

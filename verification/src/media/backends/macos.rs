//! The macOS AVFoundation encoder as the rest of the library sees it.
use vstd::prelude::*;
use vstd::string::*;

use crate::media::encode::EncodeVideoFormat;
use crate::platform::PlatformBackend;

verus! {

pub const BACKEND_NAME: &'static str = "macos-avfoundation";

pub const BACKEND_LABEL: &'static str = "native-macos-avfoundation";

pub const NATIVE_SUCCESS_MESSAGE: &'static str = "Encoded MP4 with AVFoundation H.264/AAC.";

/// The macOS encoder; it exists only in macOS builds.
#[derive(Debug, Clone, Copy, PartialEq, Eq, Structural)]
pub struct MacosRecordingEncoder {}

impl MacosRecordingEncoder {
    pub fn new(platform: PlatformBackend) -> (r: Result<MacosRecordingEncoder, String>)
        ensures
            r is Ok <==> platform == PlatformBackend::Macos,
            r matches Err(e) ==> e@ == "Native macOS encoder is only available on macOS."@,
    {
        if platform == PlatformBackend::Macos {
            Ok(MacosRecordingEncoder {  })
        } else {
            Err(String::from_str("Native macOS encoder is only available on macOS."))
        }
    }

    pub fn backend_label(&self) -> (r: String)
        ensures
            r@ == BACKEND_LABEL@,
    {
        String::from_str(BACKEND_LABEL)
    }
}

/// Why the macOS encoder refuses an input: it mixes at most one audio track.
pub fn validate_audio_input_count(count: usize) -> (r: Result<(), String>)
    ensures
        r is Ok <==> count <= 1,
        r matches Err(e) ==> e@
            == "Native macOS encoder expects at most one prepared mixed audio input."@,
{
    if count > 1 {
        return Err(
            String::from_str("Native macOS encoder expects at most one prepared mixed audio input."),
        );
    }
    Ok(())
}

pub const INVALID_AUDIO_FORMAT_ERROR: &'static str =
    "Native macOS encoder received invalid audio format metadata.";

/// Whether the macOS encoder takes a prepared audio input: float samples first, then a positive
/// rate and channel count.
pub fn validate_audio_format(sample_format: &str, sample_rate: i64, channels: i64) -> (r: Result<
    (),
    String,
>)
    ensures
        sample_format@ != "f32"@ ==> (r matches Err(e) && e@
            == "Native macOS encoder expected prepared f32 audio, got "@ + sample_format@ + "."@),
        sample_format@ == "f32"@ && (sample_rate <= 0 || channels <= 0) ==> (r matches Err(e)
            && e@ == INVALID_AUDIO_FORMAT_ERROR@),
        sample_format@ == "f32"@ && sample_rate > 0 && channels > 0 ==> r is Ok,
{
    if !crate::text::str_equals(sample_format, "f32") {
        return Err(
            String::from_str("Native macOS encoder expected prepared f32 audio, got ").concat(
                sample_format,
            ).concat("."),
        );
    }
    if sample_rate <= 0 || channels <= 0 {
        return Err(String::from_str(INVALID_AUDIO_FORMAT_ERROR));
    }
    Ok(())
}

pub const NATIVE_MUX_MESSAGE: &'static str = "Muxed chunked H.264 recording with AVFoundation/AAC.";

/// What the macOS encoder reports it did: encoded raw frames, or muxed chunked segments.
pub fn success_message(format: EncodeVideoFormat) -> (r: &'static str)
    ensures
        r@ == match format {
            EncodeVideoFormat::RawBgra => NATIVE_SUCCESS_MESSAGE@,
            EncodeVideoFormat::ChunkedH264Segments => NATIVE_MUX_MESSAGE@,
        },
{
    match format {
        EncodeVideoFormat::RawBgra => NATIVE_SUCCESS_MESSAGE,
        EncodeVideoFormat::ChunkedH264Segments => NATIVE_MUX_MESSAGE,
    }
}

} // verus!

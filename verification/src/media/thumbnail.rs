//! The still image shown for a recording: taken from one captured BGRA frame and scaled to a
//! fixed width.
use vstd::prelude::*;
use vstd::string::*;

use crate::text::{decimal, u64_to_decimal};

use image::codecs::jpeg::JpegEncoder;
use image::imageops::FilterType;
use image::{ExtendedColorType, RgbImage};

verus! {

pub const THUMBNAIL_WIDTH: u32 = 480;

pub const JPEG_QUALITY: u8 = 85;

/// A BGRA frame: `width * height` pixels of four bytes, row by row.
#[derive(Debug, Clone, PartialEq, Eq)]
pub struct BgraFrame {
    pub width: u32,
    pub height: u32,
    pub bytes: Vec<u8>,
}

impl BgraFrame {
    pub fn copy(&self) -> (r: BgraFrame)
        ensures
            r.width == self.width,
            r.height == self.height,
            r.bytes@ == self.bytes@,
    {
        BgraFrame { width: self.width, height: self.height, bytes: self.bytes.clone() }
    }
}

/// Why a frame cannot be used for a thumbnail, in the order checked.
pub open spec fn spec_frame_error(width: u32, height: u32, byte_count: nat) -> Option<Seq<char>> {
    if width == 0 || height == 0 {
        Some("Thumbnail source frame dimensions are invalid."@)
    } else if width * height * 4 > usize::MAX {
        Some("Thumbnail source frame is too large."@)
    } else if byte_count != width * height * 4 {
        Some(
            "Thumbnail source frame has "@ + decimal(byte_count) + " bytes; expected "@ + decimal(
                (width * height * 4) as nat,
            ) + "."@,
        )
    } else {
        None
    }
}

pub fn validate_frame(frame: &BgraFrame) -> (r: Result<(), String>)
    ensures
        match r {
            Ok(()) => spec_frame_error(frame.width, frame.height, frame.bytes@.len()) is None,
            Err(e) => spec_frame_error(frame.width, frame.height, frame.bytes@.len()) == Some(e@),
        },
{
    if frame.width == 0 || frame.height == 0 {
        return Err(String::from_str("Thumbnail source frame dimensions are invalid."));
    }
    let width = frame.width as usize;
    let height = frame.height as usize;
    let expected = match width.checked_mul(height) {
        Some(pixels) => match pixels.checked_mul(4) {
            Some(n) => n,
            None => {
                return Err(String::from_str("Thumbnail source frame is too large."));
            },
        },
        None => {
            assert(width * height * 4 > usize::MAX) by (nonlinear_arith)
                requires
                    width * height > usize::MAX,
            ;
            return Err(String::from_str("Thumbnail source frame is too large."));
        },
    };
    if frame.bytes.len() != expected {
        return Err(
            String::from_str("Thumbnail source frame has ").concat(
                u64_to_decimal(frame.bytes.len() as u64).as_str(),
            ).concat(" bytes; expected ").concat(u64_to_decimal(expected as u64).as_str()).concat(
                ".",
            ),
        );
    }
    Ok(())
}

/// The RGB bytes of a BGRA frame: each pixel's red, green and blue, its alpha dropped.
/// The RGB bytes of BGRA pixels: each pixel's red, green and blue, alpha dropped.
pub open spec fn spec_bgra_to_rgb(bgra: Seq<u8>) -> Seq<u8>
    decreases bgra.len(),
{
    if bgra.len() < 4 {
        Seq::empty()
    } else {
        let n = bgra.len() as int;
        spec_bgra_to_rgb(bgra.subrange(0, n - 4)) + seq![bgra[n - 2], bgra[n - 3], bgra[n - 4]]
    }
}

pub fn bgra_to_rgb(bgra: &Vec<u8>) -> (rgb: Vec<u8>)
    requires
        bgra@.len() % 4 == 0,
    ensures
        rgb@ == spec_bgra_to_rgb(bgra@),
        rgb@.len() == bgra@.len() / 4 * 3,
        forall|p: int, c: int|
            0 <= p < bgra@.len() / 4 && 0 <= c < 3 ==> #[trigger] rgb@[3 * p + c] == bgra@[4 * p
                + 2 - c],
{
    let mut rgb: Vec<u8> = Vec::new();
    let mut i: usize = 0;
    while i < bgra.len()
        invariant
            bgra@.len() % 4 == 0,
            i % 4 == 0,
            i <= bgra@.len(),
            rgb@.len() == i / 4 * 3,
            rgb@ == spec_bgra_to_rgb(bgra@.subrange(0, i as int)),
            forall|p: int, c: int|
                0 <= p < i / 4 && 0 <= c < 3 ==> #[trigger] rgb@[3 * p + c] == bgra@[4 * p + 2 - c],
        decreases bgra@.len() - i,
    {
        let ghost before = rgb@;
        rgb.push(bgra[i + 2]);
        rgb.push(bgra[i + 1]);
        rgb.push(bgra[i]);
        proof {
            let next = bgra@.subrange(0, i + 4);
            assert(next.subrange(0, i as int) =~= bgra@.subrange(0, i as int));
            assert(rgb@ =~= before + seq![bgra@[i + 2], bgra@[i + 1], bgra@[i as int]]);
        }
        i = i + 4;
    }
    assert(bgra@.subrange(0, bgra@.len() as int) =~= bgra@);
    rgb
}

/// The thumbnail height for a frame of the given size: the height that keeps the aspect ratio
/// at the thumbnail width, rounded, at least one.
pub open spec fn spec_thumbnail_height(width: int, height: int) -> int {
    let scaled = (height * THUMBNAIL_WIDTH + width / 2) / width;
    if scaled < 1 {
        1
    } else {
        scaled
    }
}

pub fn scaled_thumbnail_height(width: u32, height: u32) -> (r: Result<u32, String>)
    requires
        width > 0,
    ensures
        match r {
            Ok(h) => h == spec_thumbnail_height(width as int, height as int),
            Err(e) => spec_thumbnail_height(width as int, height as int) > u32::MAX && e@
                == "Thumbnail output is too tall."@,
        },
{
    assert(height * 480 <= 0xffff_ffff * 480) by (nonlinear_arith)
        requires
            height <= 0xffff_ffff,
    ;
    let scaled = (height as u64 * THUMBNAIL_WIDTH as u64 + (width / 2) as u64) / width as u64;
    let at_least_one = if scaled < 1 {
        1
    } else {
        scaled
    };
    if at_least_one > 4294967295u64 {
        Err(String::from_str("Thumbnail output is too tall."))
    } else {
        Ok(at_least_one as u32)
    }
}

/// What `image::imageops::resize` with the triangle filter makes of an RGB image.
pub uninterp spec fn triangle_resized(
    rgb: Seq<u8>,
    width: u32,
    height: u32,
    new_width: u32,
    new_height: u32,
) -> Seq<u8>;

/// `image::imageops::resize` with `FilterType::Triangle` on the RGB image of `width` by
/// `height` held in `rgb`. The crate's source builds the image from the bytes (which fit,
/// as required), returns a plain copy when the size does not change, and otherwise an image
/// of the new size; its intermediate buffers must not overflow `usize`, as required.
#[verifier::external_body]
pub(crate) fn resize_rgb_triangle(
    rgb: Vec<u8>,
    width: u32,
    height: u32,
    new_width: u32,
    new_height: u32,
) -> (r: Vec<u8>)
    requires
        rgb@.len() == width * height * 3,
        width * new_height * 4 <= usize::MAX,
        new_width * new_height * 3 <= usize::MAX,
    ensures
        r@ == triangle_resized(rgb@, width, height, new_width, new_height),
        r@.len() == new_width * new_height * 3,
        new_width == width && new_height == height ==> r@ == rgb@,
{
    match RgbImage::from_raw(width, height, rgb) {
        Some(image) => image::imageops::resize(&image, new_width, new_height, FilterType::Triangle)
            .into_raw(),
        None => Vec::new(),
    }
}

/// The JPEG file `image`'s encoder writes for an RGB image at a quality; none when it
/// refuses the image.
pub uninterp spec fn jpeg_encoded(rgb: Seq<u8>, width: u32, height: u32, quality: u8) -> Option<
    Seq<u8>,
>;

/// `JpegEncoder::new_with_quality(..).encode(.., ExtendedColorType::Rgb8)` into memory. The
/// crate's source refuses a side of zero or above 65535 and otherwise writes the file into
/// the buffer, which cannot fail; the error is the crate's message, whose text is not stated.
#[verifier::external_body]
pub(crate) fn encode_rgb_jpeg(rgb: &[u8], width: u32, height: u32, quality: u8) -> (r: Result<
    Vec<u8>,
    String,
>)
    requires
        rgb@.len() == width * height * 3,
    ensures
        match r {
            Ok(bytes) => jpeg_encoded(rgb@, width, height, quality) == Some(bytes@),
            Err(_) => jpeg_encoded(rgb@, width, height, quality) is None,
        },
        r is Ok <==> (1 <= width <= 65535 && 1 <= height <= 65535),
{
    let mut bytes: Vec<u8> = Vec::new();
    match JpegEncoder::new_with_quality(&mut bytes, quality).encode(
        rgb,
        width,
        height,
        ExtendedColorType::Rgb8,
    ) {
        Ok(()) => Ok(bytes),
        Err(error) => Err(format!("{error}")),
    }
}

pub const JPEG_ERROR_PREFIX: &'static str = "Unable to encode thumbnail JPEG: ";

/// The JPEG thumbnail of a frame: the frame checked, turned into RGB, scaled with the
/// triangle filter to the thumbnail width and the height that keeps its aspect ratio, and
/// encoded at the thumbnail quality.
pub fn encode_bgra_thumbnail(frame: &BgraFrame) -> (r: Result<Vec<u8>, String>)
    requires
        frame.width > 0 ==> frame.width * spec_thumbnail_height(
            frame.width as int,
            frame.height as int,
        ) * 4 <= usize::MAX,
        frame.width > 0 ==> THUMBNAIL_WIDTH * spec_thumbnail_height(
            frame.width as int,
            frame.height as int,
        ) * 3 <= usize::MAX,
    ensures
        spec_frame_error(frame.width, frame.height, frame.bytes@.len()) matches Some(e) ==> (
        r matches Err(m) && m@ == e),
        spec_frame_error(frame.width, frame.height, frame.bytes@.len()) is None ==> {
            let th = spec_thumbnail_height(frame.width as int, frame.height as int);
            if th > u32::MAX {
                r matches Err(m) && m@ == "Thumbnail output is too tall."@
            } else {
                let resized = triangle_resized(
                    spec_bgra_to_rgb(frame.bytes@),
                    frame.width,
                    frame.height,
                    THUMBNAIL_WIDTH,
                    th as u32,
                );
                match jpeg_encoded(resized, THUMBNAIL_WIDTH, th as u32, JPEG_QUALITY) {
                    Some(jpeg) => r matches Ok(bytes) && bytes@ == jpeg,
                    None => r matches Err(m) && m@.len() >= JPEG_ERROR_PREFIX@.len()
                        && m@.subrange(0, JPEG_ERROR_PREFIX@.len() as int) == JPEG_ERROR_PREFIX@,
                }
            }
        },
{
    match validate_frame(frame) {
        Ok(()) => {},
        Err(e) => return Err(e),
    }
    let rgb = bgra_to_rgb(&frame.bytes);
    proof {
        lemma_rgb_len(frame.bytes@);
    }
    let thumbnail_height = match scaled_thumbnail_height(frame.width, frame.height) {
        Ok(h) => h,
        Err(e) => return Err(e),
    };
    let resized = resize_rgb_triangle(
        rgb,
        frame.width,
        frame.height,
        THUMBNAIL_WIDTH,
        thumbnail_height,
    );
    match encode_rgb_jpeg(resized.as_slice(), THUMBNAIL_WIDTH, thumbnail_height, JPEG_QUALITY) {
        Ok(bytes) => Ok(bytes),
        Err(error) => {
            let message = String::from_str(JPEG_ERROR_PREFIX).concat(error.as_str());
            proof {
                assert(message@.subrange(0, JPEG_ERROR_PREFIX@.len() as int) =~= JPEG_ERROR_PREFIX@);
            }
            Err(message)
        },
    }
}

/// Three RGB bytes per four BGRA bytes.
pub proof fn lemma_rgb_len(bgra: Seq<u8>)
    ensures
        spec_bgra_to_rgb(bgra).len() == bgra.len() / 4 * 3,
    decreases bgra.len(),
{
    if bgra.len() >= 4 {
        lemma_rgb_len(bgra.subrange(0, bgra.len() - 4));
    }
}

} // verus!

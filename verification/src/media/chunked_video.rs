//! Chunked video: a JSON manifest (`.mfcv`) listing finished H.264 segments of a capture,
//! with one raw BGRA frame kept as its thumbnail.
use vstd::prelude::*;
use vstd::string::*;

use crate::media::thumbnail::BgraFrame;
use crate::paths::{
    extension, join_path, parent_path, spec_extension, spec_join_path, spec_parent_path,
    spec_trim_trailing_slashes, trim_trailing_slashes,
};
use crate::text::{decimal, str_equals, trim, trimmed, u64_to_decimal};

verus! {

pub const CHUNKED_VIDEO_FORMAT: &'static str = "metafy_chunked_h264_segments_v1";

pub const CHUNKED_VIDEO_EXTENSION: &'static str = "mfcv";

/// The manifest of a chunked capture.
#[derive(Debug, Clone, PartialEq, Eq)]
pub struct ChunkedVideoManifest {
    pub format: String,
    pub status: ChunkedVideoStatus,
    pub codec: String,
    pub container: String,
    pub width: u32,
    pub height: u32,
    pub frame_rate: u32,
    pub frame_count: u64,
    pub duration_ms: u64,
    pub thumbnail_frame_path: String,
    pub chunks: Vec<ChunkedVideoChunk>,
}

/// Whether a chunked capture is still being written.
#[derive(Debug, Clone, Copy, PartialEq, Eq, Structural)]
pub enum ChunkedVideoStatus {
    Recording,
    Completed,
}

/// One finished segment of a chunked capture.
#[derive(Debug, Clone, PartialEq, Eq)]
pub struct ChunkedVideoChunk {
    pub path: String,
    pub index: u64,
    pub start_frame: u64,
    pub frame_count: u64,
    pub duration_ms: u64,
}

/// `<directory>/screen_video.mfcv`, the directory taken without trailing slashes.
pub open spec fn spec_chunked_manifest_relative_path(directory: Seq<char>) -> Seq<char> {
    spec_trim_trailing_slashes(directory) + "/screen_video."@ + CHUNKED_VIDEO_EXTENSION@
}

pub fn chunked_manifest_relative_path(temp_directory_relative: &str) -> (r: String)
    ensures
        r@ == spec_chunked_manifest_relative_path(temp_directory_relative@),
{
    trim_trailing_slashes(temp_directory_relative).to_owned().concat("/screen_video.").concat(
        CHUNKED_VIDEO_EXTENSION,
    )
}

/// A path names a chunked video when its extension is `mfcv`.
pub open spec fn spec_is_chunked_video_path(path: Seq<char>) -> bool {
    spec_extension(path) == Some(CHUNKED_VIDEO_EXTENSION@)
}

pub fn is_chunked_video_path(path: &str) -> (r: bool)
    ensures
        r == spec_is_chunked_video_path(path@),
{
    match extension(path) {
        Some(ext) => str_equals(ext, CHUNKED_VIDEO_EXTENSION),
        None => false,
    }
}

/// A path given relative to the manifest's directory, as a path of its own.
pub fn manifest_relative_path(manifest_path: &str, relative_path: &str) -> (r: String)
    ensures
        r@ == spec_join_path(spec_parent_path(manifest_path@), relative_path@),
{
    let parent = parent_path(manifest_path);
    join_path(parent.as_str(), relative_path)
}

pub open spec fn manifest_message(path: Seq<char>, tail: Seq<char>) -> Seq<char> {
    "Chunked video manifest "@ + path + tail
}

/// The frames the chunks hold, added in order; the first chunk with no path or no frames, or a
/// sum past `u64::MAX`, is an error.
pub open spec fn spec_chunk_frame_total(chunks: Seq<ChunkedVideoChunk>, path: Seq<char>) -> Result<
    u64,
    Seq<char>,
>
    decreases chunks.len(),
{
    if chunks.len() == 0 {
        Ok(0)
    } else {
        match spec_chunk_frame_total(chunks.drop_last(), path) {
            Err(e) => Err(e),
            Ok(total) => {
                let chunk = chunks.last();
                if trimmed(chunk.path@).len() == 0 {
                    Err(manifest_message(path, " contains a chunk with no path."@))
                } else if chunk.frame_count == 0 {
                    Err(manifest_message(path, " contains an empty chunk."@))
                } else if total + chunk.frame_count > u64::MAX {
                    Err("Chunked video frame count is too large."@)
                } else {
                    Ok((total + chunk.frame_count) as u64)
                }
            },
        }
    }
}

/// Why a manifest does not describe a usable capture, in the order checked.
pub open spec fn spec_manifest_error(manifest: ChunkedVideoManifest, path: Seq<char>) -> Option<
    Seq<char>,
> {
    if manifest.width == 0 || manifest.height == 0 || manifest.frame_rate == 0 {
        Some(manifest_message(path, " has invalid video dimensions or frame rate."@))
    } else if manifest.frame_count == 0 || manifest.chunks@.len() == 0 {
        Some(manifest_message(path, " does not contain any finalized chunks."@))
    } else {
        match spec_chunk_frame_total(manifest.chunks@, path) {
            Err(e) => Some(e),
            Ok(total) => if total != manifest.frame_count {
                Some(
                    manifest_message(
                        path,
                        " reports "@ + decimal(manifest.frame_count as nat)
                            + " frames, but chunks contain "@ + decimal(total as nat) + "."@,
                    ),
                )
            } else {
                None
            },
        }
    }
}

fn chunk_frame_total(chunks: &Vec<ChunkedVideoChunk>, path: &str) -> (r: Result<u64, String>)
    ensures
        match r {
            Ok(total) => spec_chunk_frame_total(chunks@, path@) == Ok::<u64, Seq<char>>(total),
            Err(e) => spec_chunk_frame_total(chunks@, path@) == Err::<u64, Seq<char>>(e@),
        },
{
    let mut total: u64 = 0;
    let mut i: usize = 0;
    while i < chunks.len()
        invariant
            i <= chunks@.len(),
            spec_chunk_frame_total(chunks@.subrange(0, i as int), path@) == Ok::<
                u64,
                Seq<char>,
            >(total),
        decreases chunks.len() - i,
    {
        let ghost next = chunks@.subrange(0, i + 1);
        assert(next.drop_last() =~= chunks@.subrange(0, i as int));
        let chunk = &chunks[i];
        if trim(chunk.path.as_str()).unicode_len() == 0 {
            let e = String::from_str("Chunked video manifest ").concat(path).concat(
                " contains a chunk with no path.",
            );
            proof {
                lemma_chunk_total_error_stays(chunks@, path@, i as int + 1);
            }
            return Err(e);
        }
        if chunk.frame_count == 0 {
            let e = String::from_str("Chunked video manifest ").concat(path).concat(
                " contains an empty chunk.",
            );
            proof {
                lemma_chunk_total_error_stays(chunks@, path@, i as int + 1);
            }
            return Err(e);
        }
        match total.checked_add(chunk.frame_count) {
            Some(sum) => {
                total = sum;
            },
            None => {
                proof {
                    lemma_chunk_total_error_stays(chunks@, path@, i as int + 1);
                }
                return Err(String::from_str("Chunked video frame count is too large."));
            },
        }
        i = i + 1;
    }
    assert(chunks@.subrange(0, chunks@.len() as int) =~= chunks@);
    Ok(total)
}

/// Once the running total is an error, the total of the whole list is that error.
proof fn lemma_chunk_total_error_stays(chunks: Seq<ChunkedVideoChunk>, path: Seq<char>, i: int)
    requires
        0 <= i <= chunks.len(),
        spec_chunk_frame_total(chunks.subrange(0, i), path) is Err,
    ensures
        spec_chunk_frame_total(chunks, path) == spec_chunk_frame_total(chunks.subrange(0, i), path),
    decreases chunks.len() - i,
{
    if i < chunks.len() {
        let next = chunks.subrange(0, i + 1);
        assert(next.drop_last() =~= chunks.subrange(0, i));
        lemma_chunk_total_error_stays(chunks, path, i + 1);
    } else {
        assert(chunks.subrange(0, i) =~= chunks);
    }
}

/// A manifest that describes a usable capture: positive size and frame rate, at least one
/// chunk, every chunk with a path and frames, and chunk frames adding up to the frame count.
pub fn validate_manifest(path: &str, manifest: ChunkedVideoManifest) -> (r: Result<
    ChunkedVideoManifest,
    String,
>)
    ensures
        match r {
            Ok(m) => m == manifest && spec_manifest_error(manifest, path@) is None,
            Err(e) => spec_manifest_error(manifest, path@) == Some(e@),
        },
{
    if manifest.width == 0 || manifest.height == 0 || manifest.frame_rate == 0 {
        return Err(
            String::from_str("Chunked video manifest ").concat(path).concat(
                " has invalid video dimensions or frame rate.",
            ),
        );
    }
    if manifest.frame_count == 0 || manifest.chunks.len() == 0 {
        return Err(
            String::from_str("Chunked video manifest ").concat(path).concat(
                " does not contain any finalized chunks.",
            ),
        );
    }
    let total = match chunk_frame_total(&manifest.chunks, path) {
        Ok(total) => total,
        Err(e) => {
            return Err(e);
        },
    };
    if total != manifest.frame_count {
        return Err(
            String::from_str("Chunked video manifest ").concat(path).concat(" reports ").concat(
                u64_to_decimal(manifest.frame_count).as_str(),
            ).concat(" frames, but chunks contain ").concat(u64_to_decimal(total).as_str()).concat(
                ".",
            ),
        );
    }
    Ok(manifest)
}

/// A parsed manifest counts as chunked video only when it names the chunked format.
pub fn manifest_if_chunked(manifest: ChunkedVideoManifest) -> (r: Option<ChunkedVideoManifest>)
    ensures
        r == (if manifest.format@ == CHUNKED_VIDEO_FORMAT@ {
            Some(manifest)
        } else {
            None
        }),
{
    if str_equals(manifest.format.as_str(), CHUNKED_VIDEO_FORMAT) {
        Some(manifest)
    } else {
        None
    }
}

/// The validated manifest at `path`, from the outcome of reading it (a read error, nothing
/// chunked found, or the manifest found).
pub fn read_manifest(path: &str, found: Result<Option<ChunkedVideoManifest>, String>) -> (r: Result<
    ChunkedVideoManifest,
    String,
>)
    ensures
        match found {
            Err(e) => r == Err::<ChunkedVideoManifest, String>(e),
            Ok(None) => r matches Err(e) && e@ == "Video sidecar "@ + path@
                + " is not a chunked H.264 manifest."@,
            Ok(Some(manifest)) => match r {
                Ok(m) => m == manifest && spec_manifest_error(manifest, path@) is None,
                Err(e) => spec_manifest_error(manifest, path@) == Some(e@),
            },
        },
{
    match found {
        Err(e) => Err(e),
        Ok(None) => Err(
            String::from_str("Video sidecar ").concat(path).concat(
                " is not a chunked H.264 manifest.",
            ),
        ),
        Ok(Some(manifest)) => validate_manifest(path, manifest),
    }
}

/// The thumbnail frame of a chunked capture from the bytes of its thumbnail file.
pub fn thumbnail_frame_from_bytes(
    thumbnail_path: &str,
    manifest: &ChunkedVideoManifest,
    bytes: Vec<u8>,
) -> (r: Result<BgraFrame, String>)
    ensures
        match r {
            Ok(frame) => frame.width == manifest.width && frame.height == manifest.height
                && frame.bytes == bytes && bytes@.len() == manifest.width * manifest.height * 4,
            Err(e) => if manifest.width * manifest.height * 4 > usize::MAX {
                e@ == "Chunked video dimensions are too large."@
            } else {
                bytes@.len() != manifest.width * manifest.height * 4 && e@
                    == "Chunked video thumbnail frame "@ + thumbnail_path@ + " has "@ + decimal(
                    bytes@.len(),
                ) + " bytes; expected "@ + decimal((manifest.width * manifest.height * 4) as nat)
                    + " for "@ + decimal(manifest.width as nat) + "x"@ + decimal(
                    manifest.height as nat,
                ) + " BGRA."@
            },
        },
{
    let w = manifest.width as usize;
    let h = manifest.height as usize;
    let expected = match w.checked_mul(h) {
        Some(pixels) => match pixels.checked_mul(4) {
            Some(n) => n,
            None => {
                return Err(String::from_str("Chunked video dimensions are too large."));
            },
        },
        None => {
            assert(w * h * 4 > usize::MAX) by (nonlinear_arith)
                requires
                    w * h > usize::MAX,
            ;
            return Err(String::from_str("Chunked video dimensions are too large."));
        },
    };
    if bytes.len() != expected {
        return Err(
            String::from_str("Chunked video thumbnail frame ").concat(thumbnail_path).concat(
                " has ",
            ).concat(u64_to_decimal(bytes.len() as u64).as_str()).concat(" bytes; expected ").concat(
                u64_to_decimal(expected as u64).as_str(),
            ).concat(" for ").concat(u64_to_decimal(manifest.width as u64).as_str()).concat(
                "x",
            ).concat(u64_to_decimal(manifest.height as u64).as_str()).concat(" BGRA."),
        );
    }
    Ok(BgraFrame { width: manifest.width, height: manifest.height, bytes })
}

} // verus!

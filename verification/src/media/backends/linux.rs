//! Readiness of the Linux GStreamer encoder: which required elements and which H.264 and AAC
//! encoders the installed GStreamer provides, and what the user is told about it.
use vstd::prelude::*;
use vstd::string::*;

use crate::media::encode::{EncodeAudioInput, EncodeVideoInput};
use crate::media::readiness::LinuxBackendReadiness;
use crate::text::{join, seq_join, string_views};

verus! {

/// What the GStreamer probe found.
#[derive(Debug, Clone, PartialEq, Eq)]
pub struct LinuxGstreamerReadiness {
    pub available: bool,
    pub selected_video_encoder: Option<&'static str>,
    pub selected_audio_encoder: Option<&'static str>,
    pub missing_elements: Vec<String>,
    pub messages: Vec<String>,
    pub install_hint: String,
}

/// The elements every encoding pipeline uses.
pub open spec fn spec_required_elements() -> Seq<Seq<char>> {
    seq![
        "appsrc"@,
        "videoconvert"@,
        "h264parse"@,
        "mp4mux"@,
        "filesink"@,
        "audioconvert"@,
        "audioresample"@,
        "aacparse"@,
    ]
}

/// The H.264 encoders, most preferred first.
pub open spec fn spec_video_encoders() -> Seq<Seq<char>> {
    seq!["vah264enc"@, "vaapih264enc"@, "nvh264enc"@, "x264enc"@, "openh264enc"@, "avenc_h264"@]
}

/// The AAC encoders, most preferred first.
pub open spec fn spec_audio_encoders() -> Seq<Seq<char>> {
    seq!["fdkaacenc"@, "voaacenc"@, "avenc_aac"@]
}

pub fn required_elements() -> (r: Vec<&'static str>)
    ensures
        r@.len() == spec_required_elements().len(),
        forall|k: int| 0 <= k < r@.len() ==> #[trigger] r@[k]@ == spec_required_elements()[k],
{
    let mut r: Vec<&'static str> = Vec::new();
    r.push("appsrc");
    r.push("videoconvert");
    r.push("h264parse");
    r.push("mp4mux");
    r.push("filesink");
    r.push("audioconvert");
    r.push("audioresample");
    r.push("aacparse");
    r
}

pub fn video_encoders() -> (r: Vec<&'static str>)
    ensures
        r@.len() == spec_video_encoders().len(),
        forall|k: int| 0 <= k < r@.len() ==> #[trigger] r@[k]@ == spec_video_encoders()[k],
{
    let mut r: Vec<&'static str> = Vec::new();
    r.push("vah264enc");
    r.push("vaapih264enc");
    r.push("nvh264enc");
    r.push("x264enc");
    r.push("openh264enc");
    r.push("avenc_h264");
    r
}

pub fn audio_encoders() -> (r: Vec<&'static str>)
    ensures
        r@.len() == spec_audio_encoders().len(),
        forall|k: int| 0 <= k < r@.len() ==> #[trigger] r@[k]@ == spec_audio_encoders()[k],
{
    let mut r: Vec<&'static str> = Vec::new();
    r.push("fdkaacenc");
    r.push("voaacenc");
    r.push("avenc_aac");
    r
}

/// The elements the installed GStreamer has, as found by name.
pub open spec fn is_present(present: Seq<Seq<char>>, name: Seq<char>) -> bool {
    present.contains(name)
}

/// The required elements that are not present, in order, from position `i` on.
pub open spec fn spec_missing_from(required: Seq<Seq<char>>, present: Seq<Seq<char>>) -> Seq<
    Seq<char>,
>
    decreases required.len(),
{
    if required.len() == 0 {
        Seq::empty()
    } else if is_present(present, required.last()) {
        spec_missing_from(required.drop_last(), present)
    } else {
        spec_missing_from(required.drop_last(), present).push(required.last())
    }
}

/// The first candidate that is present.
pub open spec fn spec_first_present(candidates: Seq<Seq<char>>, present: Seq<Seq<char>>) -> Option<
    Seq<char>,
>
    decreases candidates.len(),
{
    if candidates.len() == 0 {
        None
    } else if is_present(present, candidates[0]) {
        Some(candidates[0])
    } else {
        spec_first_present(candidates.drop_first(), present)
    }
}

pub open spec fn one_of(candidates: Seq<Seq<char>>) -> Seq<char> {
    "one of: "@ + seq_join(candidates, ", "@)
}

/// The missing elements: the required ones not present, then, for a missing kind of encoder,
/// the list to install one of.
pub open spec fn spec_missing_elements(present: Seq<Seq<char>>) -> Seq<Seq<char>> {
    let required = spec_missing_from(spec_required_elements(), present);
    let with_video = if spec_first_present(spec_video_encoders(), present) is None {
        required.push(one_of(spec_video_encoders()))
    } else {
        required
    };
    if spec_first_present(spec_audio_encoders(), present) is None {
        with_video.push(one_of(spec_audio_encoders()))
    } else {
        with_video
    }
}

pub open spec fn opt_static_view(value: Option<&'static str>) -> Option<Seq<char>> {
    match value {
        Some(s) => Some(s@),
        None => None,
    }
}

pub open spec fn spec_install_hint() -> Seq<char> {
    "Install the GStreamer plugins: Ubuntu/Debian packages usually include gstreamer1.0-tools, gstreamer1.0-plugins-base, gstreamer1.0-plugins-good, gstreamer1.0-plugins-bad, gstreamer1.0-plugins-ugly, and gstreamer1.0-libav; Fedora packages usually include gstreamer1, gstreamer1-plugins-base, gstreamer1-plugins-good, gstreamer1-plugins-bad-free, gstreamer1-plugins-ugly-free, and gstreamer1-libav."@
}

/// How to install what is missing.
pub fn gstreamer_install_hint() -> (r: String)
    ensures
        r@ == spec_install_hint(),
{
    String::from_str(
        "Install the GStreamer plugins: Ubuntu/Debian packages usually include gstreamer1.0-tools, gstreamer1.0-plugins-base, gstreamer1.0-plugins-good, gstreamer1.0-plugins-bad, gstreamer1.0-plugins-ugly, and gstreamer1.0-libav; Fedora packages usually include gstreamer1, gstreamer1-plugins-base, gstreamer1-plugins-good, gstreamer1-plugins-bad-free, gstreamer1-plugins-ugly-free, and gstreamer1-libav.",
    )
}

fn contains_name(present: &Vec<String>, name: &str) -> (r: bool)
    ensures
        r == is_present(string_views(present@), name@),
{
    let mut i: usize = 0;
    while i < present.len()
        invariant
            i <= present@.len(),
            forall|j: int| 0 <= j < i ==> #[trigger] present@[j]@ != name@,
        decreases present@.len() - i,
    {
        if crate::text::str_equals(present[i].as_str(), name) {
            assert(string_views(present@)[i as int] == name@);
            return true;
        }
        i = i + 1;
    }
    assert(!string_views(present@).contains(name@)) by {
        assert forall|j: int| 0 <= j < present@.len() implies string_views(present@)[j]
            != name@ by {
            assert(present@[j]@ != name@);
        }
    }
    false
}

fn first_present(candidates: &Vec<&'static str>, present: &Vec<String>) -> (r: Option<
    &'static str,
>)
    ensures
        opt_static_view(r) == spec_first_present(
            candidates@.map_values(|c: &'static str| c@),
            string_views(present@),
        ),
{
    let ghost views = candidates@.map_values(|c: &'static str| c@);
    let mut i: usize = 0;
    assert(views.subrange(0, views.len() as int) =~= views);
    while i < candidates.len()
        invariant
            i <= candidates@.len(),
            views == candidates@.map_values(|c: &'static str| c@),
            spec_first_present(views, string_views(present@)) == spec_first_present(
                views.subrange(i as int, views.len() as int),
                string_views(present@),
            ),
        decreases candidates@.len() - i,
    {
        let ghost rest = views.subrange(i as int, views.len() as int);
        assert(rest[0] == candidates@[i as int]@);
        if contains_name(present, candidates[i]) {
            return Some(candidates[i]);
        }
        assert(rest.drop_first() =~= views.subrange(i + 1, views.len() as int));
        i = i + 1;
    }
    None
}

fn missing_required(required: &Vec<&'static str>, present: &Vec<String>) -> (r: Vec<String>)
    ensures
        string_views(r@) == spec_missing_from(
            required@.map_values(|c: &'static str| c@),
            string_views(present@),
        ),
{
    let ghost views = required@.map_values(|c: &'static str| c@);
    let mut missing: Vec<String> = Vec::new();
    let mut i: usize = 0;
    while i < required.len()
        invariant
            i <= required@.len(),
            views == required@.map_values(|c: &'static str| c@),
            string_views(missing@) == spec_missing_from(
                views.subrange(0, i as int),
                string_views(present@),
            ),
        decreases required@.len() - i,
    {
        let ghost prefix = views.subrange(0, i as int + 1);
        assert(prefix.drop_last() =~= views.subrange(0, i as int));
        assert(prefix.last() == required@[i as int]@);
        let ghost before = missing@;
        if !contains_name(present, required[i]) {
            missing.push(required[i].to_owned());
            assert(string_views(missing@) =~= string_views(before).push(required@[i as int]@));
        }
        i = i + 1;
    }
    assert(views.subrange(0, views.len() as int) =~= views);
    missing
}

fn one_of_text(candidates: &Vec<&'static str>) -> (r: String)
    ensures
        r@ == one_of(candidates@.map_values(|c: &'static str| c@)),
{
    let mut owned: Vec<String> = Vec::new();
    let mut i: usize = 0;
    while i < candidates.len()
        invariant
            i <= candidates@.len(),
            string_views(owned@) == candidates@.map_values(|c: &'static str| c@).subrange(
                0,
                i as int,
            ),
        decreases candidates@.len() - i,
    {
        let ghost before = owned@;
        owned.push(candidates[i].to_owned());
        assert(string_views(owned@) =~= string_views(before).push(candidates@[i as int]@));
        assert(candidates@.map_values(|c: &'static str| c@).subrange(0, i + 1) =~= candidates@.map_values(
            |c: &'static str| c@,
        ).subrange(0, i as int).push(candidates@[i as int]@));
        i = i + 1;
    }
    assert(candidates@.map_values(|c: &'static str| c@).subrange(0, candidates@.len() as int)
        =~= candidates@.map_values(|c: &'static str| c@));
    String::from_str("one of: ").concat(join(&owned, ", ").as_str())
}

pub open spec fn spec_ready_message(video: Seq<char>, audio: Seq<char>) -> Seq<char> {
    "GStreamer ready with video encoder "@ + video + " and audio encoder "@ + audio + "."@
}

pub open spec fn spec_missing_message(missing: Seq<Seq<char>>) -> Seq<char> {
    "GStreamer is missing required encoder or muxing elements: "@ + seq_join(missing, ", "@)
        + "."@
}

/// What the GStreamer probe reports given the element names it found: ready when nothing is
/// missing, with the first present H.264 and AAC encoders selected.
pub fn gstreamer_readiness(present: &Vec<String>) -> (r: LinuxGstreamerReadiness)
    ensures
        opt_static_view(r.selected_video_encoder) == spec_first_present(
            spec_video_encoders(),
            string_views(present@),
        ),
        opt_static_view(r.selected_audio_encoder) == spec_first_present(
            spec_audio_encoders(),
            string_views(present@),
        ),
        string_views(r.missing_elements@) == spec_missing_elements(string_views(present@)),
        r.available == (r.missing_elements@.len() == 0),
        r.messages@.len() == 1,
        r.available ==> r.messages@[0]@ == spec_ready_message(
            r.selected_video_encoder->0@,
            r.selected_audio_encoder->0@,
        ),
        !r.available ==> r.messages@[0]@ == spec_missing_message(
            string_views(r.missing_elements@),
        ),
        r.install_hint@ == spec_install_hint(),
{
    let required = required_elements();
    let videos = video_encoders();
    let audios = audio_encoders();
    assert(required@.map_values(|c: &'static str| c@) =~= spec_required_elements());
    assert(videos@.map_values(|c: &'static str| c@) =~= spec_video_encoders());
    assert(audios@.map_values(|c: &'static str| c@) =~= spec_audio_encoders());
    let mut missing = missing_required(&required, present);
    let video = first_present(&videos, present);
    let audio = first_present(&audios, present);
    let ghost before_video = string_views(missing@);
    if video.is_none() {
        missing.push(one_of_text(&videos));
    }
    assert(string_views(missing@) =~= if spec_first_present(
        spec_video_encoders(),
        string_views(present@),
    ) is None {
        before_video.push(one_of(spec_video_encoders()))
    } else {
        before_video
    });
    let ghost before_audio = string_views(missing@);
    if audio.is_none() {
        missing.push(one_of_text(&audios));
    }
    assert(string_views(missing@) =~= if spec_first_present(
        spec_audio_encoders(),
        string_views(present@),
    ) is None {
        before_audio.push(one_of(spec_audio_encoders()))
    } else {
        before_audio
    });
    let available = missing.len() == 0;
    let mut messages: Vec<String> = Vec::new();
    if available {
        let v = match video {
            Some(v) => v,
            None => "unknown",
        };
        let a = match audio {
            Some(a) => a,
            None => "unknown",
        };
        messages.push(
            String::from_str("GStreamer ready with video encoder ").concat(v).concat(
                " and audio encoder ",
            ).concat(a).concat("."),
        );
    } else {
        messages.push(
            String::from_str("GStreamer is missing required encoder or muxing elements: ").concat(
                join(&missing, ", ").as_str(),
            ).concat("."),
        );
    }
    LinuxGstreamerReadiness {
        available,
        selected_video_encoder: video,
        selected_audio_encoder: audio,
        missing_elements: missing,
        messages,
        install_hint: gstreamer_install_hint(),
    }
}

/// The report when GStreamer itself cannot start.
pub fn gstreamer_init_failure(error: &str) -> (r: LinuxGstreamerReadiness)
    ensures
        !r.available,
        r.selected_video_encoder is None,
        r.selected_audio_encoder is None,
        string_views(r.missing_elements@) == seq!["gstreamer runtime"@],
        string_views(r.messages@) == seq!["Unable to initialize GStreamer: "@ + error@],
        r.install_hint@ == spec_install_hint(),
{
    let mut missing: Vec<String> = Vec::new();
    missing.push(String::from_str("gstreamer runtime"));
    let mut messages: Vec<String> = Vec::new();
    messages.push(String::from_str("Unable to initialize GStreamer: ").concat(error));
    assert(string_views(missing@) =~= seq!["gstreamer runtime"@]);
    assert(string_views(messages@) =~= seq!["Unable to initialize GStreamer: "@ + error@]);
    LinuxGstreamerReadiness {
        available: false,
        selected_video_encoder: None,
        selected_audio_encoder: None,
        missing_elements: missing,
        messages,
        install_hint: gstreamer_install_hint(),
    }
}

/// The error an encoder that is not ready reports: its first message and the install hint.
pub fn readiness_error(readiness: &LinuxGstreamerReadiness) -> (r: String)
    ensures
        r@ == "Linux GStreamer encoder is not ready. "@ + (if readiness.messages@.len() > 0 {
            readiness.messages@[0]@
        } else {
            "No readiness detail was reported."@
        }) + " Install required GStreamer plugins and retry. "@ + readiness.install_hint@,
{
    let detail = if readiness.messages.len() > 0 {
        readiness.messages[0].clone()
    } else {
        String::from_str("No readiness detail was reported.")
    };
    String::from_str("Linux GStreamer encoder is not ready. ").concat(detail.as_str()).concat(
        " Install required GStreamer plugins and retry. ",
    ).concat(readiness.install_hint.as_str())
}

/// The readiness the media backend selection reads.
pub fn linux_backend_readiness(readiness: LinuxGstreamerReadiness) -> (r: LinuxBackendReadiness)
    ensures
        r.available == readiness.available,
        r.missing_components == readiness.missing_elements,
        r.messages == readiness.messages,
        r.install_hint == readiness.install_hint,
{
    LinuxBackendReadiness {
        available: readiness.available,
        missing_components: readiness.missing_elements,
        messages: readiness.messages,
        install_hint: readiness.install_hint,
    }
}

/// The launch fragment GStreamer is given for an encoder.
pub open spec fn spec_encoder_launch(factory: Seq<char>) -> Seq<char> {
    if factory == "x264enc"@ {
        "x264enc speed-preset=veryfast tune=zerolatency key-int-max=60 bitrate=4000"@
    } else {
        factory
    }
}

pub fn encoder_launch(factory: &str) -> (r: String)
    ensures
        r@ == spec_encoder_launch(factory@),
{
    if crate::text::str_equals(factory, "x264enc") {
        String::from_str("x264enc speed-preset=veryfast tune=zerolatency key-int-max=60 bitrate=4000")
    } else {
        factory.to_owned()
    }
}

/// `value` escaped for a quoted `gst-launch` string: `\` doubled and `"` preceded by `\`.
pub open spec fn spec_launch_escape(value: Seq<char>) -> Seq<char>
    decreases value.len(),
{
    if value.len() == 0 {
        Seq::empty()
    } else {
        let c = value.last();
        spec_launch_escape(value.drop_last()) + if c == '\\' {
            seq!['\\', '\\']
        } else if c == '"' {
            seq!['\\', '"']
        } else {
            seq![c]
        }
    }
}

pub fn gst_launch_escape(value: &str) -> (r: String)
    ensures
        r@ == spec_launch_escape(value@),
{
    let n = value.unicode_len();
    let mut out = String::new();
    let mut i: usize = 0;
    while i < n
        invariant
            n == value@.len(),
            i <= n,
            out@ == spec_launch_escape(value@.subrange(0, i as int)),
        decreases n - i,
    {
        let c = value.get_char(i);
        let ghost before = out@;
        if c == '\\' {
            out.push('\\');
            out.push('\\');
        } else if c == '"' {
            out.push('\\');
            out.push('"');
        } else {
            out.push(c);
        }
        proof {
            let prefix = value@.subrange(0, i + 1);
            assert(prefix.drop_last() =~= value@.subrange(0, i as int));
            assert(prefix.last() == c);
            assert(out@ =~= spec_launch_escape(prefix));
        }
        i = i + 1;
    }
    assert(value@.subrange(0, n as int) =~= value@);
    out
}

pub open spec fn spec_video_branch(video_launch: Seq<char>) -> Seq<char> {
    "appsrc name=video_src format=time is-live=false do-timestamp=false ! videoconvert ! video/x-raw,format=I420 ! "@
        + video_launch + " ! h264parse ! queue ! mux."@
}

/// The GStreamer pipeline that muxes H.264 video (and AAC audio when there is an audio
/// encoder) into an MP4 file at `output_path`.
pub open spec fn spec_pipeline_description(
    video_launch: Seq<char>,
    audio_launch: Option<Seq<char>>,
    output_path: Seq<char>,
) -> Seq<char> {
    let head = "mp4mux name=mux ! filesink name=output_sink location=\""@ + spec_launch_escape(
        output_path,
    ) + "\" "@ + spec_video_branch(video_launch);
    match audio_launch {
        Some(audio) => head
            + " appsrc name=audio_src format=time is-live=false do-timestamp=false ! audioconvert ! audioresample ! audio/x-raw,rate=48000,channels=2 ! "@
            + audio + " ! aacparse ! queue ! mux."@,
        None => head,
    }
}

pub fn pipeline_description(video_launch: &str, audio_launch: Option<&str>, output_path: &str) -> (r:
    String)
    ensures
        r@ == spec_pipeline_description(
            video_launch@,
            match audio_launch {
                Some(a) => Some(a@),
                None => None,
            },
            output_path@,
        ),
{
    let location = gst_launch_escape(output_path);
    let head = String::from_str("mp4mux name=mux ! filesink name=output_sink location=\"").concat(
        location.as_str(),
    ).concat("\" ").concat(
        "appsrc name=video_src format=time is-live=false do-timestamp=false ! videoconvert ! video/x-raw,format=I420 ! ",
    ).concat(video_launch).concat(" ! h264parse ! queue ! mux.");
    match audio_launch {
        Some(audio) => head.concat(
            " appsrc name=audio_src format=time is-live=false do-timestamp=false ! audioconvert ! audioresample ! audio/x-raw,rate=48000,channels=2 ! ",
        ).concat(audio).concat(" ! aacparse ! queue ! mux."),
        None => head,
    }
}

/// `units` of `1 / per_second` seconds in whole nanoseconds.
pub open spec fn nanos_of(units: int, per_second: int) -> int {
    units * 1_000_000_000 / per_second
}

pub const INVALID_TIMESTAMP_ERROR: &'static str =
    "Linux GStreamer encoder received invalid timestamp input.";

pub const TIMESTAMP_TOO_LARGE_ERROR: &'static str = "Linux GStreamer timestamp is too large.";

/// `units` of `1 / units_per_second` seconds in nanoseconds, rounded down; refused for a
/// negative count, a rate that is not positive, or a result beyond `u64`.
pub fn scaled_time_nanos(units: i64, units_per_second: i64) -> (r: Result<u64, String>)
    ensures
        units < 0 || units_per_second <= 0 ==> (r matches Err(e) && e@
            == INVALID_TIMESTAMP_ERROR@),
        units >= 0 && units_per_second > 0 ==> {
            let nanos = nanos_of(units as int, units_per_second as int);
            if nanos <= u64::MAX {
                r == Ok::<u64, String>(nanos as u64)
            } else {
                r matches Err(e) && e@ == TIMESTAMP_TOO_LARGE_ERROR@
            }
        },
{
    if units < 0 || units_per_second <= 0 {
        return Err(String::from_str(INVALID_TIMESTAMP_ERROR));
    }
    let wide = units as u128;
    assert(wide * 1_000_000_000 <= 0x7fff_ffff_ffff_ffffu128 * 1_000_000_000) by (nonlinear_arith)
        requires
            wide <= 0x7fff_ffff_ffff_ffffu128,
    ;
    let nanos = wide * 1_000_000_000 / (units_per_second as u128);
    if nanos > 0xffff_ffff_ffff_ffffu128 {
        return Err(String::from_str(TIMESTAMP_TOO_LARGE_ERROR));
    }
    Ok(nanos as u64)
}

pub const INVALID_VIDEO_TIMING_ERROR: &'static str =
    "Linux GStreamer encoder received invalid video timing.";

pub const INVALID_AUDIO_TIMING_ERROR: &'static str =
    "Linux GStreamer encoder received invalid audio timing.";

/// When video frame `frame_index` is shown, in nanoseconds.
pub fn clock_time_for_frame(frame_index: i64, frame_rate: i64) -> (r: Result<u64, String>)
    ensures
        frame_index < 0 || frame_rate <= 0 ==> (r matches Err(e) && e@
            == INVALID_VIDEO_TIMING_ERROR@),
        frame_index >= 0 && frame_rate > 0 ==> match r {
            Ok(n) => n == nanos_of(frame_index as int, frame_rate as int),
            Err(e) => nanos_of(frame_index as int, frame_rate as int) > u64::MAX && e@
                == TIMESTAMP_TOO_LARGE_ERROR@,
        },
{
    if frame_index < 0 || frame_rate <= 0 {
        return Err(String::from_str(INVALID_VIDEO_TIMING_ERROR));
    }
    scaled_time_nanos(frame_index, frame_rate)
}

/// When the audio frame at `frame_offset` plays, in nanoseconds.
pub fn clock_time_for_audio_frame(frame_offset: i64, sample_rate: i64) -> (r: Result<u64, String>)
    ensures
        frame_offset < 0 || sample_rate <= 0 ==> (r matches Err(e) && e@
            == INVALID_AUDIO_TIMING_ERROR@),
        frame_offset >= 0 && sample_rate > 0 ==> match r {
            Ok(n) => n == nanos_of(frame_offset as int, sample_rate as int),
            Err(e) => nanos_of(frame_offset as int, sample_rate as int) > u64::MAX && e@
                == TIMESTAMP_TOO_LARGE_ERROR@,
        },
{
    if frame_offset < 0 || sample_rate <= 0 {
        return Err(String::from_str(INVALID_AUDIO_TIMING_ERROR));
    }
    scaled_time_nanos(frame_offset, sample_rate)
}

/// How long `frame_count` audio frames play, in nanoseconds.
pub fn audio_duration(frame_count: i64, sample_rate: i64) -> (r: Result<u64, String>)
    ensures
        frame_count < 0 || sample_rate <= 0 ==> (r matches Err(e) && e@
            == INVALID_AUDIO_TIMING_ERROR@),
        frame_count >= 0 && sample_rate > 0 ==> match r {
            Ok(n) => n == nanos_of(frame_count as int, sample_rate as int),
            Err(e) => nanos_of(frame_count as int, sample_rate as int) > u64::MAX && e@
                == TIMESTAMP_TOO_LARGE_ERROR@,
        },
{
    if frame_count < 0 || sample_rate <= 0 {
        return Err(String::from_str(INVALID_AUDIO_TIMING_ERROR));
    }
    scaled_time_nanos(frame_count, sample_rate)
}

/// How long video frame `frame_index` is shown: from its time to the next frame's, in
/// nanoseconds.
pub fn frame_duration(frame_index: i64, frame_rate: i64) -> (r: Result<u64, String>)
    requires
        frame_index < i64::MAX,
    ensures
        frame_index < 0 || frame_rate <= 0 ==> (r matches Err(e) && e@
            == INVALID_TIMESTAMP_ERROR@),
        frame_index >= 0 && frame_rate > 0 ==> match r {
            Ok(n) => n == nanos_of(frame_index + 1, frame_rate as int) - nanos_of(
                frame_index as int,
                frame_rate as int,
            ),
            Err(e) => nanos_of(frame_index + 1, frame_rate as int) > u64::MAX && e@
                == TIMESTAMP_TOO_LARGE_ERROR@,
        },
{
    if frame_index >= 0 && frame_rate > 0 {
        proof {
            vstd::arithmetic::div_mod::lemma_div_is_ordered(
                frame_index * 1_000_000_000,
                (frame_index + 1) * 1_000_000_000,
                frame_rate as int,
            );
        }
    }
    let start = match scaled_time_nanos(frame_index, frame_rate) {
        Ok(n) => n,
        Err(e) => return Err(e),
    };
    let end = match scaled_time_nanos(frame_index + 1, frame_rate) {
        Ok(n) => n,
        Err(e) => return Err(e),
    };
    proof {
        vstd::arithmetic::div_mod::lemma_div_is_ordered(
            frame_index * 1_000_000_000,
            (frame_index + 1) * 1_000_000_000,
            frame_rate as int,
        );
    }
    Ok(end - start)
}

pub const INVALID_WIDTH_ERROR: &'static str = "Linux GStreamer encoder received invalid video width.";

pub const INVALID_HEIGHT_ERROR: &'static str =
    "Linux GStreamer encoder received invalid video height.";

pub const FRAME_TOO_LARGE_ERROR: &'static str = "Linux GStreamer video frame is too large.";

/// Bytes in one BGRA frame of the video.
pub fn expected_video_frame_bytes(video: &EncodeVideoInput) -> (r: Result<usize, String>)
    ensures
        video.width < 0 ==> (r matches Err(e) && e@ == INVALID_WIDTH_ERROR@),
        video.width >= 0 && video.height < 0 ==> (r matches Err(e) && e@ == INVALID_HEIGHT_ERROR@),
        video.width >= 0 && video.height >= 0 ==> if video.width * video.height * 4 <= usize::MAX {
            r == Ok::<usize, String>((video.width * video.height * 4) as usize)
        } else {
            r matches Err(e) && e@ == FRAME_TOO_LARGE_ERROR@
        },
{
    if video.width < 0 {
        return Err(String::from_str(INVALID_WIDTH_ERROR));
    }
    if video.height < 0 {
        return Err(String::from_str(INVALID_HEIGHT_ERROR));
    }
    let width = video.width as u128;
    let height = video.height as u128;
    assert(width * height <= 0x7fff_ffff_ffff_ffffu128 * 0x7fff_ffff_ffff_ffffu128) by (nonlinear_arith)
        requires
            width <= 0x7fff_ffff_ffff_ffffu128,
            height <= 0x7fff_ffff_ffff_ffffu128,
    ;
    let pixels = width * height;
    if pixels > (usize::MAX as u128) / 4 {
        return Err(String::from_str(FRAME_TOO_LARGE_ERROR));
    }
    Ok((pixels * 4) as usize)
}

pub const FRAME_COUNT_ERROR: &'static str =
    "Linux GStreamer encoder received invalid video frame count.";

pub const VIDEO_INPUT_TOO_LARGE_ERROR: &'static str = "Linux GStreamer video input is too large.";

pub open spec fn video_size_mismatch_message(expected: nat, actual: nat) -> Seq<char> {
    "Linux GStreamer encoder expected prepared video input to be "@ + crate::text::decimal(
        expected,
    ) + " bytes, got "@ + crate::text::decimal(actual) + "."@
}

/// The size the prepared video must have: one frame per captured frame; refused when the
/// file found (`actual_size` bytes) differs.
pub fn expected_video_bytes(video: &EncodeVideoInput, actual_size: u64) -> (r: Result<
    usize,
    String,
>)
    ensures
        match r {
            Ok(n) => video.width >= 0 && video.height >= 0 && video.frame_count >= 0 && n
                == video.width * video.height * 4 * video.frame_count && n == actual_size,
            Err(_) => !(video.width >= 0 && video.height >= 0 && video.frame_count >= 0
                && video.width * video.height * 4 <= usize::MAX
                && video.width * video.height * 4 * video.frame_count <= usize::MAX
                && video.width * video.height * 4 * video.frame_count == actual_size),
        },
{
    let frame_bytes = match expected_video_frame_bytes(video) {
        Ok(n) => n,
        Err(e) => return Err(e),
    };
    if video.frame_count < 0 {
        return Err(String::from_str(FRAME_COUNT_ERROR));
    }
    let frames = video.frame_count as u128;
    assert(frame_bytes * frames <= 0xffff_ffff_ffff_ffffu128 * 0x7fff_ffff_ffff_ffffu128) by (nonlinear_arith)
        requires
            frame_bytes <= 0xffff_ffff_ffff_ffffu128,
            frames <= 0x7fff_ffff_ffff_ffffu128,
    ;
    let total = (frame_bytes as u128) * frames;
    if total > (usize::MAX as u128) {
        return Err(String::from_str(VIDEO_INPUT_TOO_LARGE_ERROR));
    }
    let expected = total as usize;
    if expected as u64 != actual_size {
        return Err(
            String::from_str("Linux GStreamer encoder expected prepared video input to be ").concat(
                crate::text::u64_to_decimal(expected as u64).as_str(),
            ).concat(" bytes, got ").concat(
                crate::text::u64_to_decimal(actual_size).as_str(),
            ).concat("."),
        );
    }
    Ok(expected)
}

pub const INVALID_CHANNELS_ERROR: &'static str =
    "Linux GStreamer encoder received invalid audio channel count.";

/// Bytes in one frame of prepared (32-bit float) audio.
pub fn audio_frame_bytes(audio: &EncodeAudioInput) -> (r: Result<usize, String>)
    ensures
        audio.channels < 0 ==> (r matches Err(e) && e@ == INVALID_CHANNELS_ERROR@),
        audio.channels >= 0 ==> if audio.channels * 4 <= usize::MAX {
            r == Ok::<usize, String>((audio.channels * 4) as usize)
        } else {
            r is Err
        },
{
    if audio.channels < 0 {
        return Err(String::from_str(INVALID_CHANNELS_ERROR));
    }
    let channels = audio.channels as u128;
    if channels * 4 > (usize::MAX as u128) {
        return Err(String::from_str("Linux GStreamer audio frame is too large."));
    }
    Ok((channels * 4) as usize)
}

/// The prepared audio file's size, checked to hold whole frames.
pub fn audio_file_size(audio: &EncodeAudioInput, size: u64) -> (r: Result<u64, String>)
    ensures
        match r {
            Ok(n) => n == size && audio.channels > 0 && audio.channels * 4 <= usize::MAX && size
                % ((audio.channels * 4) as u64) == 0,
            Err(_) => !(audio.channels > 0 && audio.channels * 4 <= usize::MAX && size % ((
            audio.channels * 4) as u64) == 0),
        },
{
    let frame_bytes = match audio_frame_bytes(audio) {
        Ok(n) => n,
        Err(e) => return Err(e),
    };
    if frame_bytes == 0 || size % (frame_bytes as u64) != 0 {
        return Err(
            String::from_str(
                "Linux GStreamer encoder expected prepared audio to be aligned to ",
            ).concat(crate::text::u64_to_decimal(frame_bytes as u64).as_str()).concat(
                " bytes per frame, got ",
            ).concat(crate::text::u64_to_decimal(size).as_str()).concat(" bytes."),
        );
    }
    Ok(size)
}

} // verus!

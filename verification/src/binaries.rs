//! Finding the outside tools (ffmpeg, whisper) and unpacking the bundled ones: the messages,
//! the file names tried and the archive rules.
use vstd::prelude::*;
use vstd::string::*;

use crate::platform::PlatformBackend;
use crate::text::{decimal, u64_to_decimal};

verus! {

pub const BUNDLED_RESOURCE_DIRECTORY: &'static str = "binaries";

pub const BUNDLED_TOOLS_DIRECTORY: &'static str = "tools";

pub const BUNDLED_TOOLS_VERSION: &'static str = "v1";

pub const INSTALL_MANIFEST_FILE: &'static str = ".metafy-bundled-tools";

/// "<name> is not available. Install it on PATH or set <variable> to the binary path."
pub fn missing_binary_message(binary_name: &str, env_var: &str) -> (r: String)
    ensures
        r@ == binary_name@ + " is not available. Install it on PATH or set "@ + env_var@
            + " to the binary path."@,
{
    binary_name.to_owned().concat(" is not available. Install it on PATH or set ").concat(
        env_var,
    ).concat(" to the binary path.")
}

/// The binaries made executable after unpacking.
pub fn known_bundled_binary_names() -> (r: Vec<&'static str>)
    ensures
        r@.len() == 5,
        r@[0]@ == "ffmpeg"@,
        r@[1]@ == "ffprobe"@,
        r@[2]@ == "whisper-cli"@,
        r@[3]@ == "main"@,
        r@[4]@ == "whisper"@,
{
    let mut names: Vec<&'static str> = Vec::new();
    names.push("ffmpeg");
    names.push("ffprobe");
    names.push("whisper-cli");
    names.push("main");
    names.push("whisper");
    names
}

/// Where tools are looked for when they are not on PATH.
pub fn common_binary_directories(platform: PlatformBackend) -> (r: Vec<&'static str>)
    ensures
        platform == PlatformBackend::Macos ==> r@.len() == 3 && r@[0]@ == "/opt/homebrew/bin"@
            && r@[1]@ == "/usr/local/bin"@ && r@[2]@ == "/opt/local/bin"@,
        platform == PlatformBackend::Linux ==> r@.len() == 5 && r@[0]@ == "/usr/local/bin"@
            && r@[1]@ == "/usr/bin"@ && r@[2]@ == "/bin"@ && r@[3]@ == "/snap/bin"@ && r@[4]@
            == "/app/bin"@,
        platform != PlatformBackend::Macos && platform != PlatformBackend::Linux ==> r@.len() == 0,
{
    let mut directories: Vec<&'static str> = Vec::new();
    match platform {
        PlatformBackend::Macos => {
            directories.push("/opt/homebrew/bin");
            directories.push("/usr/local/bin");
            directories.push("/opt/local/bin");
        },
        PlatformBackend::Linux => {
            directories.push("/usr/local/bin");
            directories.push("/usr/bin");
            directories.push("/bin");
            directories.push("/snap/bin");
            directories.push("/app/bin");
        },
        _ => {},
    }
    directories
}

/// Scanning `text` up to position `i` for `;`-separated parts: the non-empty parts closed so
/// far, and where the open part starts.
pub open spec fn spec_separator_scan(text: Seq<char>, i: int) -> (Seq<Seq<char>>, int)
    decreases i,
{
    if i <= 0 || i > text.len() {
        (Seq::empty(), 0)
    } else {
        let (parts, start) = spec_separator_scan(text, i - 1);
        if text[i - 1] == ';' {
            (
                if i - 1 > start {
                    parts.push(text.subrange(start, i - 1))
                } else {
                    parts
                },
                i,
            )
        } else {
            (parts, start)
        }
    }
}

/// The non-empty `;`-separated parts of `text`, in order.
pub open spec fn spec_separated_parts(text: Seq<char>) -> Seq<Seq<char>> {
    let (parts, start) = spec_separator_scan(text, text.len() as int);
    if text.len() > start {
        parts.push(text.subrange(start, text.len() as int))
    } else {
        parts
    }
}

pub open spec fn prefixed(name: Seq<char>, parts: Seq<Seq<char>>) -> Seq<Seq<char>> {
    parts.map_values(|part: Seq<char>| name + part)
}

proof fn lemma_scan_start_bounded(text: Seq<char>, i: int)
    requires
        0 <= i <= text.len(),
    ensures
        0 <= spec_separator_scan(text, i).1 <= i,
    decreases i,
{
    if i > 0 {
        lemma_scan_start_bounded(text, i - 1);
    }
}

/// The file names tried for a tool: on Windows the bare name, then the name with each of the
/// `;`-separated executable extensions (by default `.EXE;.BAT;.CMD`); elsewhere the bare name.
pub fn candidate_names(binary_name: &str, path_ext: Option<String>, windows: bool) -> (r: Vec<
    String,
>)
    ensures
        !windows ==> crate::text::string_views(r@) == seq![binary_name@],
        windows ==> crate::text::string_views(r@) == seq![binary_name@] + prefixed(
            binary_name@,
            spec_separated_parts(
                match path_ext {
                    Some(value) => value@,
                    None => ".EXE;.BAT;.CMD"@,
                },
            ),
        ),
{
    let mut names: Vec<String> = Vec::new();
    names.push(binary_name.to_owned());
    assert(crate::text::string_views(names@) =~= seq![binary_name@]);
    if windows {
        let extensions = match path_ext {
            Some(value) => value,
            None => String::from_str(".EXE;.BAT;.CMD"),
        };
        let ghost text = extensions@;
        let n = extensions.unicode_len();
        let mut start: usize = 0;
        let mut i: usize = 0;
        while i < n
            invariant
                n == text.len(),
                text == extensions@,
                i <= n,
                start as int == spec_separator_scan(text, i as int).1,
                start <= i,
                crate::text::string_views(names@) == seq![binary_name@] + prefixed(
                    binary_name@,
                    spec_separator_scan(text, i as int).0,
                ),
            decreases n - i,
        {
            proof {
                lemma_scan_start_bounded(text, i as int);
            }
            let ghost before = names@;
            if extensions.get_char(i) == ';' {
                if i > start {
                    let name = binary_name.to_owned().concat(
                        extensions.as_str().substring_char(start, i),
                    );
                    names.push(name);
                    assert(crate::text::string_views(names@) =~= crate::text::string_views(
                        before,
                    ).push(name@));
                }
                start = i + 1;
            }
            i = i + 1;
            assert(crate::text::string_views(names@) =~= seq![binary_name@] + prefixed(
                binary_name@,
                spec_separator_scan(text, i as int).0,
            ));
        }
        let ghost before = names@;
        if n > start {
            let name = binary_name.to_owned().concat(extensions.as_str().substring_char(start, n));
            names.push(name);
            assert(crate::text::string_views(names@) =~= crate::text::string_views(before).push(
                name@,
            ));
        }
        assert(crate::text::string_views(names@) =~= seq![binary_name@] + prefixed(
            binary_name@,
            spec_separated_parts(text),
        ));
    }
    names
}

/// Whether a zip entry's Unix mode marks a symbolic link.
pub open spec fn spec_is_symlink_mode(mode: Option<u32>) -> bool {
    match mode {
        Some(m) => m & 0o170000u32 == 0o120000u32,
        None => false,
    }
}

/// Bundled archives may not hold symbolic links (checked where file modes exist).
pub fn reject_symlink_entry(archive_path: &str, entry_name: &str, mode: Option<u32>, unix: bool) -> (r:
    Result<(), String>)
    ensures
        r is Err <==> unix && spec_is_symlink_mode(mode),
        r matches Err(e) ==> e@ == "Bundled archive "@ + archive_path@
            + " contains unsupported symlink entry: "@ + entry_name@,
{
    if unix {
        if let Some(m) = mode {
            if m & 0o170000u32 == 0o120000u32 {
                return Err(
                    String::from_str("Bundled archive ").concat(archive_path).concat(
                        " contains unsupported symlink entry: ",
                    ).concat(entry_name),
                );
            }
        }
    }
    Ok(())
}

/// The permission bits an unpacked file gets from its zip entry.
pub fn unpacked_permissions(mode: u32) -> (r: u32)
    ensures
        r == mode & 0o777u32,
{
    mode & 0o777u32
}

/// The mode a known tool is given when no one may execute it: `rwxr-xr-x` added; none when
/// someone already may.
pub fn executable_mode(mode: u32) -> (r: Option<u32>)
    ensures
        r == (if mode & 0o111u32 == 0 {
            Some(mode | 0o755u32)
        } else {
            None::<u32>
        }),
{
    if mode & 0o111u32 == 0 {
        Some(mode | 0o755u32)
    } else {
        None
    }
}

/// The resource directory of the bundled tools for a platform: `<os>-<arch>`.
pub fn platform_resource_directory(os: &str, arch: &str) -> (r: String)
    ensures
        r@ == os@ + "-"@ + arch@,
{
    os.to_owned().concat("-").concat(arch)
}

/// One bundled archive as its fingerprint sees it: its file name, size and modification time
/// (seconds since the Unix epoch).
#[derive(Debug, Clone, PartialEq, Eq)]
pub struct ArchiveStamp {
    pub name: String,
    pub size: u64,
    pub modified_at: u64,
}

pub open spec fn spec_stamp_line(stamp: ArchiveStamp) -> Seq<char> {
    stamp.name@ + ":"@ + decimal(stamp.size as nat) + ":"@ + decimal(stamp.modified_at as nat)
        + "\n"@
}

pub open spec fn spec_stamp_lines(stamps: Seq<ArchiveStamp>) -> Seq<char>
    decreases stamps.len(),
{
    if stamps.len() == 0 {
        Seq::empty()
    } else {
        spec_stamp_lines(stamps.drop_last()) + spec_stamp_line(stamps.last())
    }
}

/// The fingerprint of the bundled archives: the tools version and platform, then one line per
/// archive. Unpacked tools are reused while it is unchanged.
pub fn archive_fingerprint(platform_directory: &str, stamps: &Vec<ArchiveStamp>) -> (r: String)
    ensures
        r@ == "version="@ + BUNDLED_TOOLS_VERSION@ + "\nplatform="@ + platform_directory@ + "\n"@
            + spec_stamp_lines(stamps@),
{
    let mut fingerprint = String::from_str("version=").concat(BUNDLED_TOOLS_VERSION).concat(
        "\nplatform=",
    ).concat(platform_directory).concat("\n");
    let ghost head = fingerprint@;
    let mut i: usize = 0;
    while i < stamps.len()
        invariant
            i <= stamps@.len(),
            fingerprint@ == head + spec_stamp_lines(stamps@.subrange(0, i as int)),
        decreases stamps.len() - i,
    {
        let stamp = &stamps[i];
        let line = stamp.name.clone().concat(":").concat(u64_to_decimal(stamp.size).as_str()).concat(
            ":",
        ).concat(u64_to_decimal(stamp.modified_at).as_str()).concat("\n");
        fingerprint.append(line.as_str());
        proof {
            let next = stamps@.subrange(0, i + 1);
            assert(next.drop_last() =~= stamps@.subrange(0, i as int));
        }
        i = i + 1;
        assert(fingerprint@ =~= head + spec_stamp_lines(stamps@.subrange(0, i as int)));
    }
    assert(stamps@.subrange(0, stamps@.len() as int) =~= stamps@);
    fingerprint
}

} // verus!

//! File paths as the application stores them: text, relative to the application data
//! directory unless absolute. Whether a path is absolute, how two paths are joined, a path's
//! parent and its extension are the standard library's path rules for the platform the
//! application is built for (`std::path::Path`); the library names their results.
use vstd::prelude::*;
use vstd::string::*;

verus! {

/// Whether `std::path::Path::is_absolute` holds of a path on the build platform.
pub uninterp spec fn std_path_is_absolute(path: Seq<char>) -> bool;

/// The path `std::path::Path::join` makes of a base and a path on the build platform.
pub uninterp spec fn std_path_joined(base: Seq<char>, path: Seq<char>) -> Seq<char>;

/// The parent `std::path::Path::parent` gives of a path on the build platform.
pub uninterp spec fn std_path_parent(path: Seq<char>) -> Option<Seq<char>>;

/// The extension `std::path::Path::extension` gives of a path on the build platform.
pub uninterp spec fn std_path_extension(path: Seq<char>) -> Option<Seq<char>>;

/// A path is absolute by the standard library's rule for the build platform: on Unix when it
/// starts with `/`; on Windows when it has a prefix (a drive such as `C:`, or `\\server\share`,
/// `\\?\`, `\\.\`) followed by a root.
pub open spec fn spec_is_absolute_path(path: Seq<char>) -> bool {
    std_path_is_absolute(path)
}

/// `Path::is_absolute`. Its documentation: on Unix a path is absolute when it starts with the
/// root; on Windows when it has a prefix and starts with the root. So an empty path is never
/// absolute, and an absolute one starts with `/`, `\` or a drive letter and `:`.
#[verifier::external_body]
fn std_is_absolute(path: &str) -> (r: bool)
    ensures
        r == std_path_is_absolute(path@),
        r ==> path@.len() > 0 && (path@[0] == '/' || path@[0] == '\\' || (path@.len() >= 2
            && path@[1] == ':')),
{
    std::path::Path::new(path).is_absolute()
}

pub fn is_absolute_path(path: &str) -> (r: bool)
    ensures
        r == spec_is_absolute_path(path@),
{
    std_is_absolute(path)
}

/// `base` joined with `relative` by the standard library's rule for the build platform.
pub open spec fn spec_join_path(base: Seq<char>, relative: Seq<char>) -> Seq<char> {
    std_path_joined(base, relative)
}

/// `Path::join` (which is `PathBuf::push` on a copy), read back as text; joining UTF-8 text
/// gives UTF-8 text, so nothing is lost. Its documentation: an absolute `path` replaces the
/// base. On Unix any other path is added after the base. On Windows a path with a prefix
/// and no root replaces the base, and a path with a root and no prefix keeps only the base's
/// prefix; any other path is added after the base. So a path joined onto an absolute base is
/// absolute, unless the joined path replaced the base.
#[verifier::external_body]
fn std_join(base: &str, path: &str) -> (r: String)
    ensures
        r@ == std_path_joined(base@, path@),
        std_path_is_absolute(path@) ==> r@ == path@,
        std_path_is_absolute(base@) ==> (std_path_is_absolute(r@) || r@ == path@),
{
    std::path::Path::new(base).join(path).to_string_lossy().into_owned()
}

pub fn join_path(base: &str, relative: &str) -> (r: String)
    ensures
        r@ == spec_join_path(base@, relative@),
        spec_is_absolute_path(relative@) ==> r@ == relative@,
        spec_is_absolute_path(base@) ==> (spec_is_absolute_path(r@) || r@ == relative@),
{
    std_join(base, relative)
}

/// `path` without the `/` characters at its end.
pub open spec fn spec_trim_trailing_slashes(path: Seq<char>) -> Seq<char>
    decreases path.len(),
{
    if path.len() > 0 && path.last() == '/' {
        spec_trim_trailing_slashes(path.drop_last())
    } else {
        path
    }
}

pub fn trim_trailing_slashes(path: &str) -> (r: &str)
    ensures
        r@ == spec_trim_trailing_slashes(path@),
{
    let mut end = path.unicode_len();
    assert(path@.subrange(0, end as int) =~= path@);
    while end > 0 && path.get_char(end - 1) == '/'
        invariant
            end <= path@.len(),
            spec_trim_trailing_slashes(path@) == spec_trim_trailing_slashes(
                path@.subrange(0, end as int),
            ),
        decreases end,
    {
        assert(path@.subrange(0, end as int).drop_last() =~= path@.subrange(0, end - 1));
        end = end - 1;
    }
    path.substring_char(0, end)
}

/// The extension of a path by the standard library's rule.
pub open spec fn spec_extension(path: Seq<char>) -> Option<Seq<char>> {
    std_path_extension(path)
}

/// `Path::extension`, as text (the text of a UTF-8 path is UTF-8). Its documentation: none
/// when there is no file name or no `.` in it, or when the name starts with its only `.`;
/// otherwise what follows the name's last `.`.
#[verifier::external_body]
fn std_extension(path: &str) -> (r: Option<&str>)
    ensures
        match r {
            Some(ext) => std_path_extension(path@) == Some(ext@),
            None => std_path_extension(path@) is None,
        },
{
    std::path::Path::new(path).extension().and_then(|extension| extension.to_str())
}

pub fn extension(path: &str) -> (r: Option<&str>)
    ensures
        match r {
            Some(ext) => spec_extension(path@) == Some(ext@),
            None => spec_extension(path@) is None,
        },
{
    std_extension(path)
}

/// The parent of a path by the standard library's rule, the empty path when it has none.
pub open spec fn spec_parent_path(path: Seq<char>) -> Seq<char> {
    match std_path_parent(path) {
        Some(parent) => parent,
        None => Seq::empty(),
    }
}

/// `Path::parent`, as text; none for a root or an empty path.
#[verifier::external_body]
fn std_parent(path: &str) -> (r: Option<String>)
    ensures
        match r {
            Some(parent) => std_path_parent(path@) == Some(parent@),
            None => std_path_parent(path@) is None,
        },
{
    std::path::Path::new(path).parent().map(|parent| parent.to_string_lossy().into_owned())
}

pub fn parent_path(path: &str) -> (r: String)
    ensures
        r@ == spec_parent_path(path@),
{
    match std_parent(path) {
        Some(parent) => parent,
        None => String::new(),
    }
}

} // verus!

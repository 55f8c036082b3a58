//! File-system paths as plain strings, and everything this crate takes on
//! trust: what `std::path` and the `is_executable` crate answer, and that
//! `==` on `str` compares contents.

use vstd::prelude::*;

verus! {

/// What `std::path::Path::file_stem` yields for `path`, as text: the final
/// component without its extension, or `None` when the path has no final
/// component. It depends on the target platform's path syntax and on nothing
/// else.
pub uninterp spec fn path_file_stem(path: Seq<char>) -> Option<Seq<char>>;

/// What `std::path::Path::is_absolute` yields for `path`.
pub uninterp spec fn path_is_absolute(path: Seq<char>) -> bool;

/// What `std::path::Path::join` yields for `base` and `path`, as text.
pub uninterp spec fn path_join(base: Seq<char>, path: Seq<char>) -> Seq<char>;

/// The view of an optional string slice.
pub open spec fn opt_str_view(s: Option<&str>) -> Option<Seq<char>> {
    match s {
        Some(t) => Some(t@),
        None => None,
    }
}

/// `str`'s `==` compares contents: two slices are equal exactly when they
/// hold the same characters.
pub assume_specification[ <str as PartialEq>::eq ](a: &str, b: &str) -> (r: bool)
    ensures
        r == (a@ == b@),
;

/// Calls `std::path::Path::file_stem` on `path` and hands the stem back as a
/// slice of `path`. The contract only names the result: equal paths have
/// equal stems.
#[verifier::external_body]
pub(crate) fn file_stem<'a>(path: &'a str) -> (stem: Option<&'a str>)
    ensures
        opt_str_view(stem) == path_file_stem(path@),
{
    std::path::Path::new(path).file_stem().and_then(|s| s.to_str())
}

/// Calls `std::path::Path::is_absolute` on `path`. The contract only names
/// the result.
#[verifier::external_body]
pub(crate) fn is_absolute(path: &str) -> (r: bool)
    ensures
        r == path_is_absolute(path@),
{
    std::path::Path::new(path).is_absolute()
}

/// Calls `std::path::Path::join` to adjoin `path` to `base`. The contract
/// only names the result.
#[verifier::external_body]
pub(crate) fn join(base: &str, path: &str) -> (joined: String)
    ensures
        joined@ == path_join(base@, path@),
{
    std::path::Path::new(base).join(path).to_string_lossy().into_owned()
}

/// Calls `std::path::Path::is_dir`, which asks the file system whether
/// `path` is an existing directory. Nothing is claimed of the answer: it may
/// change between two calls.
#[verifier::external_body]
pub(crate) fn is_dir(path: &str) -> bool {
    std::path::Path::new(path).is_dir()
}

/// Calls `is_executable::is_executable`, which asks the file system whether
/// `path` is a file that may be executed. Nothing is claimed of the answer:
/// it may change between two calls.
#[verifier::external_body]
pub(crate) fn is_executable(path: &str) -> bool {
    is_executable::is_executable(path)
}

/// The name under which the program at `path` is invoked: its file stem, or
/// the empty string where it has none.
pub open spec fn program_name(path: Seq<char>) -> Seq<char> {
    match path_file_stem(path) {
        Some(stem) => stem,
        None => Seq::empty(),
    }
}

/// Computes [`program_name`] of `path`.
pub fn program_name_of<'a>(path: &'a str) -> (name: &'a str)
    ensures
        name@ == program_name(path@),
{
    match file_stem(path) {
        Some(stem) => stem,
        None => {
            proof {
                reveal_strlit("");
            }
            ""
        },
    }
}

} // verus!

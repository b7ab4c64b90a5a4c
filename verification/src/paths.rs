//! File-system paths as the library sees them: opaque values of std's
//! `PathBuf`, with names for the few things the logic asks of them.

use std::path::PathBuf;
use vstd::prelude::*;

verus! {

#[verifier::external_type_specification]
#[verifier::external_body]
pub struct ExPathBuf(std::path::PathBuf);

/// The path without its last component: what `Path::parent` returns.
pub uninterp spec fn parent_of(path: PathBuf) -> Option<PathBuf>;

/// The last component of the path as text, with anything that is not
/// Unicode replaced: what `Path::file_name` returns, made a string by
/// `OsStr::to_string_lossy`.
pub uninterp spec fn file_name_of(path: PathBuf) -> Option<Seq<char>>;

/// The extension of the path's file name, where it has one that is Unicode:
/// what `Path::extension` returns, made text by `OsStr::to_str`.
pub uninterp spec fn extension_of(path: PathBuf) -> Option<Seq<char>>;

/// `Path::extension`: the part of the file name after its last dot, if
/// there is one; `OsStr::to_str` gives it as text if it is valid Unicode.
#[verifier::external_body]
pub(crate) fn path_extension(path: &PathBuf) -> (ext: Option<String>)
    ensures
        match ext {
            Some(e) => extension_of(*path) == Some(e@),
            None => extension_of(*path) is None,
        },
{
    path.extension().and_then(|e| e.to_str()).map(|e| e.to_owned())
}

/// The last component of the path where it is valid Unicode: what
/// `Path::file_name` returns, made text by `OsStr::to_str`.
pub uninterp spec fn file_name_utf8_of(path: PathBuf) -> Option<Seq<char>>;

/// The file name without its extension where it is valid Unicode: what
/// `Path::file_stem` returns, made text by `OsStr::to_str`.
pub uninterp spec fn file_stem_of(path: PathBuf) -> Option<Seq<char>>;

/// Whether the components of `base` are the first components of `path`:
/// what `Path::starts_with` returns.
pub uninterp spec fn path_under(path: PathBuf, base: PathBuf) -> bool;

/// `Path::file_name`: the final component of the path, if it has one that
/// is not `..`; `OsStr::to_str` gives it as text if it is valid Unicode.
#[verifier::external_body]
pub(crate) fn path_file_name_utf8(path: &PathBuf) -> (name: Option<String>)
    ensures
        match name {
            Some(n) => file_name_utf8_of(*path) == Some(n@),
            None => file_name_utf8_of(*path) is None,
        },
{
    path.file_name().and_then(|n| n.to_str()).map(|n| n.to_owned())
}

/// `Path::file_stem`: the file name without its extension;
/// `OsStr::to_str` gives it as text if it is valid Unicode.
#[verifier::external_body]
pub(crate) fn path_file_stem(path: &PathBuf) -> (stem: Option<String>)
    ensures
        match stem {
            Some(n) => file_stem_of(*path) == Some(n@),
            None => file_stem_of(*path) is None,
        },
{
    path.file_stem().and_then(|n| n.to_str()).map(|n| n.to_owned())
}

/// `Path::starts_with`: whether `base` is a prefix of the path, whole
/// components only.
#[verifier::external_body]
pub(crate) fn path_starts_with(path: &PathBuf, base: &PathBuf) -> (under: bool)
    ensures
        under == path_under(*path, *base),
{
    path.starts_with(base)
}

/// Whether `a` comes before `b` in the order of paths: what `Path::cmp`
/// decides, component by component.
pub uninterp spec fn path_before(a: PathBuf, b: PathBuf) -> bool;

/// `PathBuf::cmp`: the order of two paths by their components.
#[verifier::external_body]
pub(crate) fn compare_paths(a: &PathBuf, b: &PathBuf) -> (order: std::cmp::Ordering)
    ensures
        matches!(order, std::cmp::Ordering::Less) <==> path_before(*a, *b),
        matches!(order, std::cmp::Ordering::Greater) <==> path_before(*b, *a),
{
    a.cmp(b)
}

/// `Path::parent`: the path without its final component, if there is one;
/// `None` for a root or an empty path.
#[verifier::external_body]
pub(crate) fn path_parent(path: &PathBuf) -> (parent: Option<PathBuf>)
    ensures
        parent == parent_of(*path),
{
    path.parent().map(|p| p.to_path_buf())
}

/// `Path::file_name`: the final component of the path, if it has one that
/// is not `..`, converted to text by `OsStr::to_string_lossy`.
#[verifier::external_body]
pub(crate) fn path_file_name(path: &PathBuf) -> (name: Option<String>)
    ensures
        match name {
            Some(n) => file_name_of(*path) == Some(n@),
            None => file_name_of(*path) is None,
        },
{
    path.file_name().map(|n| n.to_string_lossy().into_owned())
}

/// `PathBuf::clone`: a copy of the path.
pub assume_specification[ <std::path::PathBuf as std::clone::Clone>::clone ](
    path: &std::path::PathBuf,
) -> (copy: std::path::PathBuf)
    ensures
        copy == *path,
;

} // verus!

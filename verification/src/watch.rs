//! Which file-system events in a repository are worth reporting.
use vstd::prelude::*;
use crate::git;
use crate::text::{contains_str, has_substring, str_eq};

verus! {

broadcast use vstd::string::group_string_axioms;

/// A changed path is ignored when it lies in (or names) git's own data,
/// i.e. contains `.git`, or when it is an editor's swap or temporary file
/// (extension `swp` or `tmp`).
pub open spec fn ignored_path(p: Seq<char>) -> bool {
    has_substring(p, ".git"@) || ignored_extension_of(git::path_extension_of(p))
}

/// An event is ignored when any of its paths is.
pub open spec fn ignored_event(paths: Seq<Seq<char>>) -> bool {
    exists|i: int| 0 <= i < paths.len() && #[trigger] ignored_path(paths[i])
}

/// An extension of an editor's swap or temporary file: `swp` or `tmp`.
pub open spec fn ignored_extension_of(ext: Option<Seq<char>>) -> bool {
    ext == Some("swp"@) || ext == Some("tmp"@)
}

/// Whether a path's extension (as `Path::extension` finds it) marks an
/// editor's swap or temporary file.
pub fn is_ignored_extension(ext: &Option<String>) -> (res: bool)
    ensures
        res == ignored_extension_of(ext.deep_view()),
{
    match ext {
        Some(e) => str_eq(e.as_str(), "swp") || str_eq(e.as_str(), "tmp"),
        None => false,
    }
}

/// Whether one changed path is ignored.
pub fn is_ignored_path(p: &str) -> (res: bool)
    ensures
        res == ignored_path(p@),
{
    if contains_str(p, ".git") {
        return true;
    }
    let ext = git::path_extension(p);
    is_ignored_extension(&ext)
}

/// Whether a file-system event (the paths it touched) is ignored.
pub fn is_ignored_change(paths: &Vec<String>) -> (res: bool)
    ensures
        res == ignored_event(paths.deep_view()),
{
    let mut i: usize = 0;
    while i < paths.len()
        invariant
            i <= paths.len(),
            forall|j: int| 0 <= j < i ==> !ignored_path(#[trigger] paths.deep_view()[j]),
        decreases paths.len() - i,
    {
        if is_ignored_path(paths[i].as_str()) {
            proof {
                assert(ignored_path(paths.deep_view()[i as int]));
            }
            return true;
        }
        i = i + 1;
    }
    false
}

} // verus!

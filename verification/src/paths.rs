//! File-system paths. A path is carried as `std::path::PathBuf` and never
//! looked into here; what is asked of one is asked of std.

use std::path::PathBuf;
use vstd::prelude::*;

verus! {

#[verifier::external_type_specification]
#[verifier::external_body]
pub struct ExPathBuf(PathBuf);

pub assume_specification[ <PathBuf as Clone>::clone ](path: &PathBuf) -> (copy: PathBuf)
    ensures
        copy == *path,
;

/// The directory that holds a path, as `Path::parent` finds it from the
/// components of the path: the path without its last component, or nothing
/// where the path ends in a root or is empty.
pub uninterp spec fn parent_of(path: PathBuf) -> Option<PathBuf>;

/// Asks `Path::parent` for the directory that holds `path`. The answer is a
/// function of the path alone.
#[verifier::external_body]
pub(crate) fn parent_dir(path: &PathBuf) -> (parent: Option<PathBuf>)
    ensures
        parent == parent_of(*path),
{
    match path.parent() {
        Some(dir) => Some(dir.to_path_buf()),
        None => None,
    }
}

/// The extension of the last component of `path`, as `Path::extension`
/// reports it, where there is one and it is valid Unicode.
#[verifier::external_body]
pub(crate) fn extension_text(path: &PathBuf) -> (extension: Option<String>) {
    match path.extension() {
        Some(ext) => match ext.to_str() {
            Some(text) => Some(text.to_string()),
            None => None,
        },
        None => None,
    }
}

/// The path of a name inside a directory, as `Path::join` builds it from
/// the directory and the path that the name alone makes.
pub uninterp spec fn joined_path(dir: PathBuf, name: Seq<char>) -> PathBuf;

/// Builds the path of `name` inside `dir` with `Path::join`. The result is a
/// function of the directory and the text of the name.
#[verifier::external_body]
pub(crate) fn child_path(dir: &PathBuf, name: &String) -> (joined: PathBuf)
    ensures
        joined == joined_path(*dir, name@),
{
    dir.join(PathBuf::from(name))
}

} // verus!

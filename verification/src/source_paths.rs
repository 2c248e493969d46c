//! Paths as the platform reads them: the directory an emitted file lands
//! in, and the path beside a file from which one of its imports is read.
use std::path::PathBuf;
use vstd::prelude::*;
use vstd::string::*;

verus! {

/// `std::path::PathBuf`, an owned path. Nothing inside it is looked at.
#[verifier::external_type_specification]
#[verifier::external_body]
pub struct ExPathBuf(PathBuf);

/// Calls `std::path::Path::join`, which adjoins `part` to `base`; an
/// absolute `part` takes the place of `base`. What counts as absolute and
/// how the parts are separated is the platform's, so nothing is stated of
/// the result.
#[verifier::external_body]
fn join_path(base: &PathBuf, part: &str) -> (joined: PathBuf) {
    base.join(part)
}

/// Calls `std::path::PathBuf::from` on a text, which takes it as a path as
/// it stands.
#[verifier::external_body]
fn path_of(text: &str) -> (path: PathBuf) {
    PathBuf::from(text)
}

/// Calls `std::path::Path::to_str`: the path as text, or nothing where it
/// is not valid Unicode.
#[verifier::external_body]
fn path_text(path: &PathBuf) -> (text: Option<String>) {
    path.to_str().map(|s| s.to_string())
}

/// Calls `std::path::Path::parent`: the path without its last component,
/// or nothing for a root or an empty path.
#[verifier::external_body]
fn parent_of(path: &PathBuf) -> (parent: Option<PathBuf>) {
    path.parent().map(|p| p.to_path_buf())
}

/// The directory of the file `file_name` below the output directory `dir`
/// of the working directory `cwd`. The name may hold directories of its
/// own, so this is the parent of the whole path; there is none where the
/// whole path is a root or empty.
pub fn chunk_file_dir(cwd: &PathBuf, dir: &str, file_name: &str) -> (file_dir: Option<PathBuf>) {
    let out_dir = join_path(cwd, dir);
    let file_path = join_path(&out_dir, file_name);
    parent_of(&file_path)
}

/// The path that `import` names as seen from the file at `file`: the file's
/// path, one step up, then the import. How the steps are joined is the
/// platform's.
pub(crate) fn path_beside(file: &str, import: &str) -> (path: Option<String>) {
    let file_path = path_of(file);
    let beside = join_path(&file_path, "..");
    let target = join_path(&beside, import);
    path_text(&target)
}

} // verus!

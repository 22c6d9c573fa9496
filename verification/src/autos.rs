//! Creating and deleting a directory with a file in it.

use crate::error::{AreiaError, AreiaErrorView, AreiaResult};
use crate::fs::{plan_outcome, Entry, EntryView, FsAction, FsActionView};
use crate::path::{FilePath, FilePathView};
use crate::utils::{
    create_all_dir_with_file, creation_plan, delete_all_dir_with_files, deletion_plan,
};
use vstd::prelude::*;

verus! {

/// What creating a file with its directories takes.
pub open spec fn auto_creator_spec(path: FilePathView) -> Result<Seq<FsActionView>, AreiaErrorView> {
    if path.is_empty() {
        Err(AreiaErrorView::PathMustBeSomething(path))
    } else {
        Ok(creation_plan(path))
    }
}

/// What deleting a directory with its files takes.
pub open spec fn auto_deletor_spec(path: FilePathView, entry: EntryView) -> Result<
    Seq<FsActionView>,
    AreiaErrorView,
> {
    if path.is_empty() {
        Err(AreiaErrorView::PathMustBeSomething(path))
    } else {
        Ok(deletion_plan(path, entry))
    }
}

/// Convenience function to create a directory with a file in it.
/// All parent directories are to be created if they do not exist.
///
/// # Errors
///
/// Errors if the path is empty.
pub fn auto_creator(path: FilePath) -> (plan: AreiaResult<Vec<FsAction>>)
    ensures
        plan_outcome(plan) == auto_creator_spec(path@),
{
    if path.is_empty() {
        return Err(AreiaError::PathMustBeSomething(path));
    }
    Ok(create_all_dir_with_file(&path))
}

/// Convenience function to delete a directory with files in it.
///
/// ! USE WITH CAUTION !
///
/// All parent directories and any contained files are to be deleted.
/// If only a file is passed in, all files and directories inside the same directory are to be
/// deleted.
///
/// # Example
///
/// Given this structure:
///
/// parent/
/// ├── child/
/// │   ├── a.file
/// │   └── b.file
/// ├── child2/
/// │   └── c.file
/// ├── another.file
/// └── my.file
///
/// If `auto_deletor(child/)` (or `auto_deletor(child/a.file)`) is called, `a.file`, `b.file` and
/// their parent directory `child` are to be deleted, resulting in:
///
/// parent/
/// ├── child2/
/// │   └── c.file
/// ├── another.file
/// └── my.file
///
/// By calling `auto_deletor(parent/my.file)` all files and directories in `parent/` are to be
/// deleted alongside `parent/` itself.
///
/// # Errors
///
/// Errors if the path is empty.
pub fn auto_deletor(path: FilePath, entry: &Entry) -> (plan: AreiaResult<Vec<FsAction>>)
    ensures
        plan_outcome(plan) == auto_deletor_spec(path@, entry@),
{
    if path.is_empty() {
        return Err(AreiaError::PathMustBeSomething(path));
    }
    Ok(delete_all_dir_with_files(&path, entry))
}

} // verus!

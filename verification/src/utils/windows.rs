//! Hiding by attribute, as Windows does it: an entry is hidden when the
//! hidden bit of its attributes is set.  The path never changes.

use crate::dirs::base::{resolvable, BaseDirs};
use crate::dirs::user::UserDirs;
use crate::error::{outcome, AreiaError, AreiaErrorView, AreiaResult};
use crate::fs::{single, Entry, EntryView, FsActionView, Transition, TransitionView};
use crate::path::{FilePath, FilePathView};
use crate::utils::ffi::windows;
use crate::utils::ffi::windows::{
    has_hidden_bit, has_super_hidden_bits, hidden_bits, queried, shown_bits, super_hidden_bits,
    super_shown_bits, FolderID,
};
use crate::utils::platform::{Environment, WindowsEnv};
use crate::utils::{inside_any, is_inside_any, system_dirs, system_dirs_spec};
use vstd::prelude::*;

verus! {

/// The home directory of a Windows session: the profile folder, else
/// `USERPROFILE` where it holds an absolute path.
pub open spec fn home_of(env: WindowsEnv) -> Result<FilePathView, AreiaErrorView> {
    match env.folders.path(FolderID::Profile) {
        Ok(path) => Ok(path),
        Err(_) => match env.user_profile {
            Some(path) => if path@.is_absolute() {
                Ok(path@)
            } else {
                Err(AreiaErrorView::CantGetHomeDir)
            },
            None => Err(AreiaErrorView::CantGetHomeDir),
        },
    }
}

/// Get the user's home directory
///
/// # Returns
/// `Ok(path)` if the home directory could be found
/// `Err(AreiaError::CantGetHomeDir)` if the home directory could not be found
pub fn get_home(env: &WindowsEnv) -> (home: AreiaResult<FilePath>)
    ensures
        outcome(home) == home_of(*env),
        home is Ok ==> home.unwrap()@.is_absolute() && home.unwrap()@.wf(),
{
    if let Ok(path) = windows::get_path(FolderID::Profile, &env.folders) {
        Ok(path)
    } else {
        if let Some(path) = &env.user_profile {
            if path.is_absolute() {
                Ok(path.clone())
            } else {
                Err(AreiaError::CantGetHomeDir)
            }
        } else {
            Err(AreiaError::CantGetHomeDir)
        }
    }
}

/// The transition that writes new attribute bits to the entry at `path`.
pub open spec fn rewrite(
    path: FilePathView,
    attributes: Result<u32, Seq<char>>,
    change: spec_fn(u32) -> u32,
) -> Result<TransitionView, AreiaErrorView> {
    match queried(attributes) {
        Ok(bits) => Ok(
            TransitionView {
                path,
                actions: seq![FsActionView::SetAttributes { path, bits: change(bits) }],
            },
        ),
        Err(error) => Err(error),
    }
}

/// What hiding does to an entry by its attributes.
pub open spec fn hide_file_spec(path: FilePathView, entry: EntryView) -> Result<
    TransitionView,
    AreiaErrorView,
> {
    if !entry.present() {
        Err(AreiaErrorView::FileDoesNotExist(path))
    } else {
        rewrite(path, entry.attributes, |bits: u32| hidden_bits(bits))
    }
}

/// What unhiding does to an entry by its attributes, given the protected
/// directories.
pub open spec fn unhide_file_spec(
    path: FilePathView,
    entry: EntryView,
    protected: Seq<FilePathView>,
) -> Result<TransitionView, AreiaErrorView> {
    if !entry.present() {
        Err(AreiaErrorView::FileDoesNotExist(path))
    } else {
        match queried(entry.attributes) {
            Ok(bits) => if !has_hidden_bit(bits) {
                Ok(TransitionView::stay(path))
            } else if inside_any(path, protected) {
                Err(AreiaErrorView::HiddenFileInsideSystemDir(path))
            } else {
                rewrite(path, entry.attributes, |bits: u32| shown_bits(bits))
            },
            Err(error) => Err(error),
        }
    }
}

/// What super unhiding does to an entry, given the protected directories.
pub open spec fn super_unhide_spec(
    path: FilePathView,
    entry: EntryView,
    protected: Seq<FilePathView>,
) -> Result<TransitionView, AreiaErrorView> {
    if inside_any(path, protected) {
        Err(AreiaErrorView::HiddenFileInsideSystemDir(path))
    } else {
        rewrite(path, entry.attributes, |bits: u32| super_shown_bits(bits))
    }
}

/// Whether the entry is there and carries the hidden bit.
pub open spec fn seen_hidden(entry: EntryView) -> bool {
    entry.present() && queried(entry.attributes) is Ok && has_hidden_bit(
        queried(entry.attributes)->Ok_0,
    )
}

/// What unhiding does to an entry by its attributes in a session.  The
/// directories of the session are resolved only for a hidden entry.
pub open spec fn unhide_spec(path: FilePathView, entry: EntryView, env: Environment) -> Result<
    TransitionView,
    AreiaErrorView,
> {
    if seen_hidden(entry) {
        match system_dirs_spec(env) {
            Ok(protected) => unhide_file_spec(path, entry, protected),
            Err(error) => Err(error),
        }
    } else {
        unhide_file_spec(path, entry, Seq::<FilePathView>::empty())
    }
}

/// What super unhiding does to an entry in a session.
pub open spec fn super_unhide_in(path: FilePathView, entry: EntryView, env: Environment) -> Result<
    TransitionView,
    AreiaErrorView,
> {
    match system_dirs_spec(env) {
        Ok(protected) => super_unhide_spec(path, entry, protected),
        Err(error) => Err(error),
    }
}

pub fn hide_file(path: &FilePath, entry: &Entry) -> (result: AreiaResult<Transition>)
    ensures
        outcome(result) == hide_file_spec(path@, entry@),
{
    if !entry.is_present() {
        return Err(AreiaError::FileDoesNotExist(path.clone()));
    }
    let action = windows::mark_hidden(path, &entry.attributes)?;
    Ok(Transition { path: path.clone(), actions: single(action) })
}

pub fn unhide_file(path: &FilePath, entry: &Entry, env: &Environment) -> (result: AreiaResult<
    Transition,
>)
    requires
        seen_hidden(entry@) ==> resolvable(*env),
    ensures
        outcome(result) == unhide_spec(path@, entry@, *env),
{
    if !entry.is_present() {
        return Err(AreiaError::FileDoesNotExist(path.clone()));
    }
    if !windows::is_hidden(&entry.attributes)? {
        return Ok(Transition::stay(path.clone()));
    }
    // an entry inside a system directory stays hidden

    let base_dirs = BaseDirs::new(env)?;
    let user_dirs = UserDirs::new(env)?;
    let sys_dirs = system_dirs(&base_dirs, &user_dirs);
    if is_inside_any(path, &sys_dirs) {
        return Err(AreiaError::HiddenFileInsideSystemDir(path.clone()));
    }
    let action = windows::unhide(path, &entry.attributes)?;
    Ok(Transition { path: path.clone(), actions: single(action) })
}

/// Checks the entry that the path points to
pub fn is_any_component_hidden(path: &FilePath, entry: &Entry) -> (hidden: AreiaResult<bool>)
    ensures
        outcome(hidden) == match queried(entry@.attributes) {
            Ok(bits) => Ok::<bool, AreiaErrorView>(has_hidden_bit(bits)),
            Err(error) => Err(error),
        },
{
    windows::is_hidden(&entry.attributes)
}

pub fn is_superhidden(path: &FilePath, entry: &Entry) -> (hidden: AreiaResult<bool>)
    ensures
        outcome(hidden) == match queried(entry@.attributes) {
            Ok(bits) => Ok::<bool, AreiaErrorView>(has_super_hidden_bits(bits)),
            Err(error) => Err(error),
        },
{
    windows::is_super_hidden(&entry.attributes)
}

pub fn super_hide(path: &FilePath, entry: &Entry) -> (result: AreiaResult<Transition>)
    ensures
        outcome(result) == rewrite(path@, entry@.attributes, |bits: u32| super_hidden_bits(bits)),
{
    let action = windows::super_hide(path, &entry.attributes)?;
    Ok(Transition { path: path.clone(), actions: single(action) })
}

pub fn super_unhide(path: &FilePath, entry: &Entry, env: &Environment) -> (result: AreiaResult<
    Transition,
>)
    requires
        resolvable(*env),
    ensures
        outcome(result) == super_unhide_in(path@, entry@, *env),
{
    let base_dirs = BaseDirs::new(env)?;
    let user_dirs = UserDirs::new(env)?;
    let sys_dirs = system_dirs(&base_dirs, &user_dirs);
    if is_inside_any(path, &sys_dirs) {
        return Err(AreiaError::HiddenFileInsideSystemDir(path.clone()));
    }
    let action = windows::super_unhide(path, &entry.attributes)?;
    Ok(Transition { path: path.clone(), actions: single(action) })
}

} // verus!

//! The visibility of filesystem entries.
//!
//! Nothing here touches the filesystem.  A caller observes the entry that
//! a path points to, asks for the transition, and carries out the actions
//! of the answer in their order.

pub mod laws;
pub mod normal_hide;
pub mod super_hide;

use crate::dirs::base::resolvable;
use crate::error::{outcome, AreiaErrorView, AreiaResult};
use crate::fs::{Entry, EntryView, TransitionView, VisibilityResult};
use crate::path::{FilePath, FilePathView};
use crate::utils::platform::{Environment, Platform};
use crate::utils::unix::{any_hidden, hidden_path, shown_path};
use crate::utils::{
    hidden_now, hide_path_spec, is_superhidden_spec, super_hide_spec, super_unhide_spec,
    unhide_path_spec,
};
use vstd::prelude::*;

verus! {

/// Whether an entry is hidden; an empty path is refused.
pub open spec fn is_hidden_outcome(
    path: FilePathView,
    entry: EntryView,
    platform: Platform,
) -> Result<bool, AreiaErrorView> {
    if path.is_empty() {
        Err(AreiaErrorView::PathMustBeSomething(path))
    } else {
        Ok(hidden_now(path, entry, platform))
    }
}

/// What hiding an entry comes to: a hidden entry stays as it is, a
/// visible one is hidden as its platform does it.
pub open spec fn hide_outcome(path: FilePathView, entry: EntryView, platform: Platform) -> Result<
    TransitionView,
    AreiaErrorView,
> {
    if path.is_empty() {
        Err(AreiaErrorView::PathMustBeSomething(path))
    } else if hidden_now(path, entry, platform) {
        Ok(TransitionView::stay(path))
    } else {
        hide_path_spec(path, entry, platform)
    }
}

/// What unhiding an entry comes to in a session.
pub open spec fn unhide_outcome(path: FilePathView, entry: EntryView, env: Environment) -> Result<
    TransitionView,
    AreiaErrorView,
> {
    if path.is_empty() {
        Err(AreiaErrorView::PathMustBeSomething(path))
    } else {
        unhide_path_spec(path, entry, env)
    }
}

/// The answer of a platform that does not hide by names.
pub open spec fn no_hidden_names() -> AreiaErrorView {
    AreiaErrorView::MakingHiddenPathNotSupported("Names do not hide entries on Windows"@)
}

/// The hidden name of a path, where names hide.
pub open spec fn hidden_path_outcome(path: FilePathView, platform: Platform) -> Result<
    FilePathView,
    AreiaErrorView,
> {
    if path.is_empty() {
        Err(AreiaErrorView::PathMustBeSomething(path))
    } else if !platform.hides_by_name() {
        Err(no_hidden_names())
    } else if !any_hidden(path) && path.components.len() == 0 {
        Err(AreiaErrorView::PathMustBeSomething(path))
    } else {
        Ok(hidden_path(path))
    }
}

/// The visible name of a path, where names hide.
pub open spec fn unhidden_path_outcome(path: FilePathView, platform: Platform) -> Result<
    FilePathView,
    AreiaErrorView,
> {
    if path.is_empty() {
        Err(AreiaErrorView::PathMustBeSomething(path))
    } else if !platform.hides_by_name() {
        Err(no_hidden_names())
    } else {
        Ok(shown_path(path))
    }
}

pub trait Hidden: View<V = FilePathView> + Sized {
    /// Returns true if the path is hidden
    ///
    /// # Platform specific behaviour
    ///
    /// ## Unix
    ///
    /// Checks if any component of the path is hidden (`.` prefix).
    /// Does not ask whether the path exists.
    /// Returns `true` if any component is hidden.
    /// Returns `false` if no component is hidden.
    ///
    /// ## Windows
    ///
    /// Checks for the hidden attribute on the file or folder pointed to with the path.
    /// Returns `true` if the file or folder is hidden.
    /// Returns `false` if the file or folder is not hidden.
    /// SPECIAL: Returns `false` if the path does not exist or its attributes could not be read.
    ///
    /// # Errors
    ///
    /// Errors if the path is empty.
    fn is_hidden(&self, entry: &Entry, platform: Platform) -> (hidden: AreiaResult<bool>)
        ensures
            outcome(hidden) == is_hidden_outcome(self@, entry@, platform),
    ;

    /// Hides the path
    ///
    /// # Platform specific behaviour
    ///
    /// ## Unix
    ///
    /// Checks if any component of the path is already hidden.
    /// If true, returns the path unmodified and asks for nothing.
    /// If no part of the path is hidden, the last directory or file contained in the path is hidden.
    ///
    /// The path of the answer is the new hidden path.
    /// If the path exists, the last directory or file in the path is to be moved to its hidden
    /// name in one step - ensuring no data is lost.
    /// If the path does not exist, an empty file is to be created under the hidden name.
    ///
    /// ## Windows
    ///
    /// Checks for the hidden attribute on the file or folder pointed to with the path.
    /// If the file or folder is already hidden, it asks for nothing.
    /// If the file or folder is not hidden, its attributes are to be written with the hidden
    /// attribute among them.
    ///
    /// The path of the answer is the provided path.
    ///
    /// # Errors
    ///
    /// Errors if the path is empty or names nothing, and on Windows if the path does not exist
    /// or its attributes could not be read.
    fn hide_path(&self, entry: &Entry, platform: Platform) -> (result: VisibilityResult)
        ensures
            outcome(result) == hide_outcome(self@, entry@, platform),
    ;

    /// Unhides a hidden path
    ///
    /// # Platform specific behaviour
    ///
    /// ## Unix
    ///
    /// Checks if any component of the path is hidden.
    /// If true, the leading dot is taken from the hidden components and the new path is returned.
    /// Should the file be located in a hidden system path, the path is not unhidden and an error is returned.
    ///
    /// If no part of the path is hidden, returns the path unmodified and asks for nothing.
    ///
    /// If the path exists, it is to be moved to the new name in one step - ensuring no data is lost.
    /// If the path does not exist, only the new path is returned.
    ///
    /// ## Windows
    ///
    /// Checks for the hidden attribute on the file or folder pointed to with the path.
    /// If the file or folder is already visible, it asks for nothing.
    /// If the file or folder is hidden, its attributes are to be written without the hidden
    /// attribute.
    ///
    /// The path of the answer is the provided path.
    /// If the path does not exist, an error is returned.
    ///
    /// For a hidden entry the directories of the session are resolved, so the home directory
    /// has to be laid out as the platform expects.
    ///
    /// # Errors
    ///
    /// Errors if the path is empty, if the entry is hidden inside a protected directory, or if
    /// the directories of the session cannot be resolved.
    fn unhide(&self, entry: &Entry, env: &Environment) -> (result: VisibilityResult)
        requires
            is_hidden_outcome(self@, entry@, env.platform_of()) == Ok::<bool, AreiaErrorView>(true)
                ==> resolvable(*env),
        ensures
            outcome(result) == unhide_outcome(self@, entry@, *env),
    ;

    /// Like `hide_path()`, but returns only the hidden path - nothing is asked of the filesystem.
    ///
    /// # Errors
    ///
    /// Errors if the path is empty or names nothing, and on Windows, where names do not hide.
    fn try_into_hidden_path(&self, platform: Platform) -> (hidden: AreiaResult<FilePath>)
        ensures
            outcome(hidden) == hidden_path_outcome(self@, platform),
    ;

    /// Like `unhide()`, but returns only the visible path - nothing is asked of the filesystem
    /// and no directory is protected.
    ///
    /// # Errors
    ///
    /// Errors if the path is empty, and on Windows, where names do not hide.
    fn try_into_unhidden_path(&self, platform: Platform) -> (shown: AreiaResult<FilePath>)
        ensures
            outcome(shown) == unhidden_path_outcome(self@, platform),
    ;
}

/// The answer of Linux to every question about super hidden entries.
pub open spec fn no_super_hiding() -> AreiaErrorView {
    AreiaErrorView::SuperHidingNotSupported("No super hiding on Linux"@)
}

/// What stands in the way of a super hiding operation before it looks at
/// the entry's state: the platform has no such thing, the path is empty,
/// or the entry does not exist.
pub open spec fn super_refusal(path: FilePathView, entry: EntryView, platform: Platform) -> Option<
    AreiaErrorView,
> {
    if platform is Linux {
        Some(no_super_hiding())
    } else if path.is_empty() {
        Some(AreiaErrorView::PathMustBeSomething(path))
    } else if !entry.present() {
        Some(AreiaErrorView::SuperHidingRequiresExistingPath(path))
    } else {
        None
    }
}

/// Whether an entry is super hidden.
pub open spec fn is_super_hidden_outcome(
    path: FilePathView,
    entry: EntryView,
    platform: Platform,
) -> Result<bool, AreiaErrorView> {
    match super_refusal(path, entry, platform) {
        Some(error) => Err(error),
        None => is_superhidden_spec(path, entry, platform),
    }
}

/// What super hiding an entry comes to: a super hidden entry stays as it
/// is; another one is hidden, then marked.
pub open spec fn super_hide_outcome(
    path: FilePathView,
    entry: EntryView,
    platform: Platform,
) -> Result<TransitionView, AreiaErrorView> {
    match is_super_hidden_outcome(path, entry, platform) {
        Ok(hidden) => if hidden {
            Ok(TransitionView::stay(path))
        } else {
            super_hide_spec(path, entry, platform)
        },
        Err(error) => Err(error),
    }
}

/// What super unhiding an entry comes to in a session: an entry that is
/// not super hidden stays as it is; a super hidden one loses its mark,
/// then is unhidden.
pub open spec fn super_unhide_outcome(
    path: FilePathView,
    entry: EntryView,
    env: Environment,
) -> Result<TransitionView, AreiaErrorView> {
    match is_super_hidden_outcome(path, entry, env.platform_of()) {
        Ok(hidden) => if hidden {
            super_unhide_spec(path, entry, env)
        } else {
            Ok(TransitionView::stay(path))
        },
        Err(error) => Err(error),
    }
}

pub trait SuperHidden: View<V = FilePathView> + Sized {
    /// Checks if the path is `super hidden`.
    /// The path must point to an existing file or directory.
    /// This concept only applies to MacOS and Windows.
    ///
    /// `super hidden` is a file or directory that is hidden, as achieved with using `.hide_path()`
    /// provided by `areia`, and marked with a platform specific attribute or flag.
    ///
    /// # Platform specific behaviour
    ///
    /// ## Unix
    ///
    /// ### Linux
    ///
    /// Always returns `AreiaError::SuperHidingNotSupported`.
    ///
    /// ### MacOS
    ///
    /// Returns `true` if any component of the path is hidden (`.` prefix) and the entry has the
    /// `hidden` flag set.
    ///
    /// ## Windows
    ///
    /// Only the file or folder pointed to by the path is checked.
    /// Returns `true` if the attributes `Hidden` and `System` are set.
    ///
    /// # Errors
    ///
    /// Errors if the path does not exist or an OS error occurred.
    fn is_super_hidden(&self, entry: &Entry, platform: Platform) -> (hidden: AreiaResult<bool>)
        ensures
            outcome(hidden) == is_super_hidden_outcome(self@, entry@, platform),
    ;

    /// Super hides the file or directory pointed to by the path.
    /// The path must point to an existing file or directory.
    /// This concept only applies to MacOS and Windows.
    ///
    /// # Platform specific behaviour
    ///
    /// ## Unix
    ///
    /// ### Linux
    ///
    /// Always returns `AreiaError::SuperHidingNotSupported`.
    ///
    /// ### MacOS
    ///
    /// Asks for nothing if the file or directory is already super hidden.
    /// Otherwise, the file or directory is to be hidden and then marked with the `hidden` flag.
    ///
    /// ## Windows
    ///
    /// Asks for nothing if the file or directory is already super hidden.
    /// Otherwise, the file or directory is to be marked with the `Hidden` and `System` attributes.
    ///
    /// # Errors
    ///
    /// Errors if the path does not exist or an OS error occurred.
    fn super_hide(&self, entry: &Entry, platform: Platform) -> (result: VisibilityResult)
        ensures
            outcome(result) == super_hide_outcome(self@, entry@, platform),
    ;

    /// Super un-hides the file or directory pointed to by the path.
    /// The reverse of `.super_hide()`.
    /// The path must point to an existing file or directory.
    /// This concept only applies to MacOS and Windows.
    ///
    /// # Platform specific behaviour
    ///
    /// ## Unix
    ///
    /// ### Linux
    ///
    /// Always returns `AreiaError::SuperHidingNotSupported`.
    ///
    /// ### MacOS
    ///
    /// Asks for nothing if the file or directory is not super hidden.
    /// Otherwise, the `hidden` flag is to be taken from the file or directory, which is then
    /// to be unhidden.
    ///
    /// ## Windows
    ///
    /// Asks for nothing if the file or directory is not super hidden.
    /// Otherwise, the `Hidden` and `System` attributes are to be taken from the file or directory.
    ///
    /// For a super hidden entry the directories of the session are resolved, so the home
    /// directory has to be laid out as the platform expects.
    ///
    /// # Errors
    ///
    /// Errors if the path does not exist, if the entry lies inside a protected directory, or if an
    /// OS error occurred.
    fn super_unhide(&self, entry: &Entry, env: &Environment) -> (result: VisibilityResult)
        requires
            is_super_hidden_outcome(self@, entry@, env.platform_of()) == Ok::<bool, AreiaErrorView>(
                true,
            ) ==> resolvable(*env),
        ensures
            outcome(result) == super_unhide_outcome(self@, entry@, *env),
    ;
}

} // verus!

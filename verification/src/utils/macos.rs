//! Super hiding on macOS: an entry that is hidden by its name and carries
//! the hidden flag.

use crate::dirs::base::resolvable;
use crate::error::{outcome, AreiaErrorView, AreiaResult};
use crate::fs::{chain, Entry, EntryView, Transition, TransitionView};
use crate::path::{FilePath, FilePathView};
use crate::utils::ffi::macos::{
    flag_plan, has_hidden_flag, read_flags, remove_hidden_flag, set_hidden_flag, UF_HIDDEN,
};
use crate::utils::platform::Environment;
use crate::utils::unix::{
    any_hidden, hide_file, hide_file_spec, is_any_component_hidden, unhide_file, unhide_spec,
};
use vstd::prelude::*;

verus! {

/// Whether an entry is super hidden: a component of its path is hidden and
/// the entry carries the hidden flag.
pub open spec fn is_superhidden_spec(path: FilePathView, entry: EntryView) -> Result<
    bool,
    AreiaErrorView,
> {
    if !any_hidden(path) {
        Ok(false)
    } else {
        match read_flags(entry.attributes) {
            Ok(flags) => Ok(flags & UF_HIDDEN != 0),
            Err(error) => Err(error),
        }
    }
}

/// What super hiding does: the entry is hidden, then flagged under its new
/// name.
pub open spec fn superhide_spec(path: FilePathView, entry: EntryView) -> Result<
    TransitionView,
    AreiaErrorView,
> {
    match hide_file_spec(path, entry) {
        Ok(hidden) => match flag_plan(hidden.path, entry.attributes, UF_HIDDEN, true) {
            Ok(plan) => Ok(TransitionView { path: hidden.path, actions: hidden.actions + plan }),
            Err(error) => Err(error),
        },
        Err(error) => Err(error),
    }
}

/// What super unhiding does: the flag is taken from the entry, then the
/// entry is unhidden.  Where either step is refused, nothing is done.
pub open spec fn super_unhide_spec(path: FilePathView, entry: EntryView, env: Environment) -> Result<
    TransitionView,
    AreiaErrorView,
> {
    match flag_plan(path, entry.attributes, UF_HIDDEN, false) {
        Ok(plan) => match unhide_spec(path, entry, env) {
            Ok(shown) => Ok(TransitionView { path: shown.path, actions: plan + shown.actions }),
            Err(error) => Err(error),
        },
        Err(error) => Err(error),
    }
}

/// Checks if any component of the path is hidden and the entry has the hidden flag set.
pub fn is_superhidden(path: &FilePath, entry: &Entry) -> (hidden: AreiaResult<bool>)
    ensures
        outcome(hidden) == is_superhidden_spec(path@, entry@),
{
    if is_any_component_hidden(path)? {
        return has_hidden_flag(&entry.attributes);
    }
    return Ok(false);
}

pub fn superhide(path: &FilePath, entry: &Entry) -> (result: AreiaResult<Transition>)
    ensures
        outcome(result) == superhide_spec(path@, entry@),
{
    let hidden = hide_file(path, entry)?;
    let plan = set_hidden_flag(&hidden.path, &entry.attributes)?;
    Ok(Transition { path: hidden.path, actions: chain(hidden.actions, plan) })
}

pub fn super_unhide(path: &FilePath, entry: &Entry, env: &Environment) -> (result: AreiaResult<
    Transition,
>)
    requires
        any_hidden(path@) ==> resolvable(*env),
    ensures
        outcome(result) == super_unhide_spec(path@, entry@, *env),
{
    let plan = remove_hidden_flag(path, &entry.attributes)?;
    let shown = unhide_file(path, entry, env)?;
    Ok(Transition { path: shown.path, actions: chain(plan, shown.actions) })
}

} // verus!

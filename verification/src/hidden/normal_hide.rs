use super::Hidden;
use crate::error::{AreiaError, AreiaResult};
use crate::fs::{Entry, Transition, VisibilityResult};
use crate::path::FilePath;
use crate::utils::platform::{Environment, Platform};
use crate::utils::unix::{make_hidden_path, make_unhidden_path};
use crate::utils::{hide_path, is_hidden, unhide_path};
use vstd::prelude::*;

verus! {

fn names_do_not_hide() -> (error: AreiaError)
    ensures
        error@ == super::no_hidden_names(),
{
    AreiaError::MakingHiddenPathNotSupported("Names do not hide entries on Windows".to_owned())
}

impl Hidden for FilePath {
    fn is_hidden(&self, entry: &Entry, platform: Platform) -> (hidden: AreiaResult<bool>) {
        if self.is_empty() {
            return Err(AreiaError::PathMustBeSomething(self.clone()));
        }
        match platform {
            Platform::Windows => {
                if entry.is_present() {
                    // the query may have failed - while returning false is suboptimal
                    // the predicate is to answer for every entry
                    match is_hidden(self, entry, platform) {
                        Ok(hidden) => Ok(hidden),
                        Err(_) => Ok(false),
                    }
                } else {
                    Ok(false)
                }
            },
            _ => is_hidden(self, entry, platform),
        }
    }

    fn hide_path(&self, entry: &Entry, platform: Platform) -> (result: VisibilityResult) {
        if self.is_hidden(entry, platform)? {
            Ok(Transition::stay(self.clone()))
        } else {
            hide_path(self, entry, platform)
        }
    }

    fn unhide(&self, entry: &Entry, env: &Environment) -> (result: VisibilityResult) {
        if self.is_empty() {
            return Err(AreiaError::PathMustBeSomething(self.clone()));
        }
        unhide_path(self, entry, env)
    }

    fn try_into_hidden_path(&self, platform: Platform) -> (hidden: AreiaResult<FilePath>) {
        if self.is_empty() {
            return Err(AreiaError::PathMustBeSomething(self.clone()));
        }
        if !platform.uses_naming_convention() {
            return Err(names_do_not_hide());
        }
        let already = match crate::utils::unix::is_any_component_hidden(self) {
            Ok(hidden) => hidden,
            Err(_) => false,
        };
        if !already && self.len() == 0 {
            return Err(AreiaError::PathMustBeSomething(self.clone()));
        }
        Ok(make_hidden_path(self))
    }

    fn try_into_unhidden_path(&self, platform: Platform) -> (shown: AreiaResult<FilePath>) {
        if self.is_empty() {
            return Err(AreiaError::PathMustBeSomething(self.clone()));
        }
        if !platform.uses_naming_convention() {
            return Err(names_do_not_hide());
        }
        Ok(make_unhidden_path(self))
    }
}

} // verus!

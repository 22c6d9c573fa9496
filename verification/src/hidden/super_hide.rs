use super::SuperHidden;
use crate::error::{AreiaError, AreiaResult};
use crate::fs::{Entry, Transition, VisibilityResult};
use crate::path::FilePath;
use crate::utils::platform::{Environment, Platform};
use crate::utils::{is_superhidden, super_hide, super_unhide};
use vstd::prelude::*;

verus! {

/// Tells what stands in the way of a super hiding operation, if anything
/// does.
fn refusal(path: &FilePath, entry: &Entry, platform: Platform) -> (error: Option<AreiaError>)
    ensures
        match error {
            Some(error) => super::super_refusal(path@, entry@, platform) == Some(error@),
            None => super::super_refusal(path@, entry@, platform) is None,
        },
{
    match platform {
        Platform::Linux => Some(
            AreiaError::SuperHidingNotSupported("No super hiding on Linux".to_owned()),
        ),
        _ => {
            if path.is_empty() {
                Some(AreiaError::PathMustBeSomething(path.clone()))
            } else if !entry.is_present() {
                Some(AreiaError::SuperHidingRequiresExistingPath(path.clone()))
            } else {
                None
            }
        },
    }
}

impl SuperHidden for FilePath {
    fn is_super_hidden(&self, entry: &Entry, platform: Platform) -> (hidden: AreiaResult<bool>) {
        if let Some(error) = refusal(self, entry, platform) {
            return Err(error);
        }
        is_superhidden(self, entry, platform)
    }

    fn super_hide(&self, entry: &Entry, platform: Platform) -> (result: VisibilityResult) {
        if self.is_super_hidden(entry, platform)? {
            return Ok(Transition::stay(self.clone()));
        }
        super_hide(self, entry, platform)
    }

    fn super_unhide(&self, entry: &Entry, env: &Environment) -> (result: VisibilityResult) {
        if !self.is_super_hidden(entry, env.platform())? {
            return Ok(Transition::stay(self.clone()));
        }
        super_unhide(self, entry, env)
    }
}

} // verus!

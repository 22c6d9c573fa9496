//! The file flags of macOS.

use crate::error::{outcome, AreiaError, AreiaErrorView, AreiaResult};
use crate::fs::{actions_of, answer_of, plan_outcome, FsAction, FsActionView};
use crate::path::{FilePath, FilePathView};
use vstd::prelude::*;

verus! {

pub const UF_HIDDEN: u32 = 0x8000;

/// The flags with `flag` set or cleared.
pub open spec fn with_flag(flags: u32, flag: u32, enable: bool) -> u32 {
    if enable {
        flags | flag
    } else {
        flags & !flag
    }
}

/// The flags that were read, or the failure to read them.
pub open spec fn read_flags(attributes: Result<u32, Seq<char>>) -> Result<u32, AreiaErrorView> {
    match attributes {
        Ok(flags) => Ok(flags),
        Err(message) => Err(AreiaErrorView::MacError(message)),
    }
}

/// What setting or clearing a flag takes: nothing where the flags stay as
/// they are, else one write of all flags.
pub open spec fn flag_plan(
    path: FilePathView,
    attributes: Result<u32, Seq<char>>,
    flag: u32,
    enable: bool,
) -> Result<Seq<FsActionView>, AreiaErrorView> {
    match read_flags(attributes) {
        Ok(flags) => if with_flag(flags, flag, enable) == flags {
            Ok(Seq::<FsActionView>::empty())
        } else {
            Ok(seq![FsActionView::SetAttributes { path, bits: with_flag(flags, flag, enable) }])
        },
        Err(error) => Err(error),
    }
}

pub fn set_hidden_flag(path: &FilePath, attributes: &Result<u32, String>) -> (plan: AreiaResult<
    Vec<FsAction>,
>)
    ensures
        plan_outcome(plan) == flag_plan(path@, answer_of(*attributes), UF_HIDDEN, true),
{
    set_flag(path, attributes, UF_HIDDEN, true)
}

pub fn remove_hidden_flag(path: &FilePath, attributes: &Result<u32, String>) -> (plan: AreiaResult<
    Vec<FsAction>,
>)
    ensures
        plan_outcome(plan) == flag_plan(path@, answer_of(*attributes), UF_HIDDEN, false),
{
    set_flag(path, attributes, UF_HIDDEN, false)
}

pub fn has_hidden_flag(attributes: &Result<u32, String>) -> (flagged: AreiaResult<bool>)
    ensures
        outcome(flagged) == match read_flags(answer_of(*attributes)) {
            Ok(flags) => Ok::<bool, AreiaErrorView>(flags & UF_HIDDEN != 0),
            Err(error) => Err(error),
        },
{
    Ok(get_flags(attributes)? & UF_HIDDEN != 0)
}

fn get_flags(attributes: &Result<u32, String>) -> (flags: AreiaResult<u32>)
    ensures
        outcome(flags) == read_flags(answer_of(*attributes)),
{
    match attributes {
        Ok(flags) => Ok(*flags),
        Err(message) => Err(AreiaError::MacError(message.clone())),
    }
}

/// Sets the hidden attribute for a file or directory
///
/// If `enable` is true, the hidden attribute is set, otherwise it is removed - but only if it
/// makes sense to do so
fn set_flag(path: &FilePath, attributes: &Result<u32, String>, flag: u32, enable: bool) -> (plan:
    AreiaResult<Vec<FsAction>>)
    ensures
        plan_outcome(plan) == flag_plan(path@, answer_of(*attributes), flag, enable),
{
    let cur_flags = get_flags(attributes)?;
    let new_flags = if enable {
        cur_flags | flag
    } else {
        cur_flags & !flag
    };
    let mut plan: Vec<FsAction> = Vec::new();
    if cur_flags == new_flags {
        assert(actions_of(plan@) =~= Seq::<FsActionView>::empty());
        return Ok(plan);
    }
    plan.push(FsAction::SetAttributes { path: path.clone(), bits: new_flags });
    assert(actions_of(plan@) =~= seq![
        FsActionView::SetAttributes { path: path@, bits: new_flags },
    ]);
    Ok(plan)
}

} // verus!

//! The operations of the library, chosen by platform.

pub mod factory;
pub mod ffi;
pub mod macos;
pub mod platform;
pub mod unix;
pub mod windows;

use crate::dirs::base::{BaseDirs, BaseDirsView};
use crate::dirs::user::{UserDirs, UserDirsView};
use crate::dirs::base::resolvable;
use crate::error::{outcome, AreiaError, AreiaErrorView, AreiaResult};
use crate::fs::{
    actions_of, single, Entry, EntryView, FsAction, FsActionView, Transition, TransitionView,
};
use crate::path::{FilePath, FilePathView};
use crate::utils::ffi::windows::{has_hidden_bit, has_super_hidden_bits, queried, super_hidden_bits};
use crate::utils::platform::{Environment, Platform};
use vstd::prelude::*;

verus! {

/// The home directory of a session.
pub open spec fn home_spec(env: Environment) -> Result<FilePathView, AreiaErrorView> {
    match env {
        Environment::Linux(env) => unix::home_of(env.home, env.home_fallback, None),
        Environment::MacOs(env) => unix::home_of(env.home, env.home_fallback, env.native_home),
        Environment::Windows(env) => windows::home_of(env),
    }
}

pub fn get_home(env: &Environment) -> (home: AreiaResult<FilePath>)
    ensures
        outcome(home) == home_spec(*env),
        home is Ok ==> home.unwrap()@.is_absolute() && home.unwrap()@.wf(),
{
    match env {
        Environment::Linux(env) => unix::get_home(&env.home, &env.home_fallback, &None),
        Environment::MacOs(env) => unix::get_home(&env.home, &env.home_fallback, &env.native_home),
        Environment::Windows(env) => windows::get_home(env),
    }
}

/// A path that may be absent, as a list of none or one.
pub open spec fn optional(path: Option<FilePathView>) -> Seq<FilePathView> {
    match path {
        Some(path) => seq![path],
        None => Seq::<FilePathView>::empty(),
    }
}

/// The directories out of which nothing is unhidden: cache, config,
/// local config, data, local data and preference, then state, executable
/// and font where they are present.
pub open spec fn protected_dirs(base: BaseDirsView, user: UserDirsView) -> Seq<FilePathView> {
    seq![
        base.cache_dir,
        base.config_dir,
        base.config_local_dir,
        base.data_dir,
        base.data_local_dir,
        base.preference_dir,
    ] + optional(base.state_dir) + optional(base.executable_dir) + optional(user.font_dir)
}

/// The protected directories of a session, or the failure to resolve its
/// directories.
pub open spec fn system_dirs_spec(env: Environment) -> Result<Seq<FilePathView>, AreiaErrorView> {
    match crate::dirs::base::base_dirs_spec(env) {
        Ok(base) => match crate::dirs::user::user_dirs_spec(env) {
            Ok(user) => Ok(protected_dirs(base, user)),
            Err(error) => Err(error),
        },
        Err(error) => Err(error),
    }
}

/// Whether `path` is one of `dirs` or lies inside one of them.
pub open spec fn inside_any(path: FilePathView, dirs: Seq<FilePathView>) -> bool {
    exists|i: int| 0 <= i < dirs.len() && path.starts_with(#[trigger] dirs[i])
}

/// The values of a list of borrowed paths.
pub open spec fn paths_of(paths: Seq<&FilePath>) -> Seq<FilePathView> {
    paths.map_values(|path: &FilePath| path@)
}

/// Collects the protected directories of a session.
pub fn system_dirs<'a>(base: &'a BaseDirs, user: &'a UserDirs) -> (dirs: Vec<&'a FilePath>)
    ensures
        paths_of(dirs@) == protected_dirs(base@, user@),
{
    let mut system_dirs: Vec<&'a FilePath> = Vec::new();
    system_dirs.push(base.cache_dir());
    system_dirs.push(base.config_dir());
    system_dirs.push(base.config_local_dir());
    system_dirs.push(base.data_dir());
    system_dirs.push(base.data_local_dir());
    system_dirs.push(base.preference_dir());
    assert(paths_of(system_dirs@) =~= seq![
        base@.cache_dir,
        base@.config_dir,
        base@.config_local_dir,
        base@.data_dir,
        base@.data_local_dir,
        base@.preference_dir,
    ]);
    let ghost fixed = paths_of(system_dirs@);
    if let Some(path) = base.state_dir() {
        system_dirs.push(path);
    }
    assert(paths_of(system_dirs@) =~= fixed + optional(base@.state_dir));
    let ghost with_state = paths_of(system_dirs@);
    if let Some(path) = base.executable_dir() {
        system_dirs.push(path);
    }
    assert(paths_of(system_dirs@) =~= with_state + optional(base@.executable_dir));
    let ghost with_executable = paths_of(system_dirs@);
    if let Some(path) = user.font_dir() {
        system_dirs.push(path);
    }
    assert(paths_of(system_dirs@) =~= with_executable + optional(user@.font_dir));
    system_dirs
}

/// Whether `path` is one of `dirs` or lies inside one of them.
pub fn is_inside_any(path: &FilePath, dirs: &Vec<&FilePath>) -> (inside: bool)
    ensures
        inside == inside_any(path@, paths_of(dirs@)),
{
    let mut i: usize = 0;
    while i < dirs.len()
        invariant
            i <= dirs.len(),
            forall|k: int| 0 <= k < i ==> !path@.starts_with(#[trigger] paths_of(dirs@)[k]),
        decreases dirs.len() - i,
    {
        if path.starts_with(dirs[i]) {
            assert(path@.starts_with(paths_of(dirs@)[i as int]));
            return true;
        }
        i += 1;
    }
    false
}

/// The actions that create an empty file at `path`, its directory first.
pub open spec fn creation_plan(path: FilePathView) -> Seq<FsActionView> {
    match path.parent() {
        Some(parent) => seq![FsActionView::CreateDirAll(parent), FsActionView::CreateFile(path)],
        None => seq![FsActionView::CreateFile(path)],
    }
}

/// Plans an empty file at `path`: the directory above it is created with
/// all its ancestors, then the file.
pub fn create_all_dir_with_file(path: &FilePath) -> (plan: Vec<FsAction>)
    ensures
        actions_of(plan@) == creation_plan(path@),
{
    let mut plan: Vec<FsAction> = Vec::new();
    if let Some(parent) = path.parent() {
        plan.push(FsAction::CreateDirAll(parent));
    }
    plan.push(FsAction::CreateFile(path.clone()));
    assert(actions_of(plan@) =~= creation_plan(path@));
    plan
}

/// What hiding does to an entry on a platform.
pub open spec fn hide_path_spec(path: FilePathView, entry: EntryView, platform: Platform) -> Result<
    TransitionView,
    AreiaErrorView,
> {
    match platform {
        Platform::Windows => windows::hide_file_spec(path, entry),
        _ => unix::hide_file_spec(path, entry),
    }
}

pub fn hide_path(path: &FilePath, entry: &Entry, platform: Platform) -> (result: AreiaResult<
    Transition,
>)
    ensures
        outcome(result) == hide_path_spec(path@, entry@, platform),
{
    match platform {
        Platform::Windows => windows::hide_file(path, entry),
        _ => unix::hide_file(path, entry),
    }
}

/// Whether an entry counts as hidden: by a component of its path where
/// names hide, else by the hidden bit of an entry that is there and whose
/// attributes could be read.
pub open spec fn hidden_now(path: FilePathView, entry: EntryView, platform: Platform) -> bool {
    match platform {
        Platform::Windows => windows::seen_hidden(entry),
        _ => unix::any_hidden(path),
    }
}

/// What unhiding does to an entry in a session.
pub open spec fn unhide_path_spec(path: FilePathView, entry: EntryView, env: Environment) -> Result<
    TransitionView,
    AreiaErrorView,
> {
    match env {
        Environment::Windows(_) => windows::unhide_spec(path, entry, env),
        _ => unix::unhide_spec(path, entry, env),
    }
}

pub fn unhide_path(path: &FilePath, entry: &Entry, env: &Environment) -> (result: AreiaResult<
    Transition,
>)
    requires
        hidden_now(path@, entry@, env.platform_of()) ==> resolvable(*env),
    ensures
        outcome(result) == unhide_path_spec(path@, entry@, *env),
{
    match env {
        Environment::Windows(_) => windows::unhide_file(path, entry, env),
        _ => unix::unhide_file(path, entry, env),
    }
}

/// Whether an entry is hidden on a platform, or the failure to tell.
pub open spec fn is_hidden_spec(path: FilePathView, entry: EntryView, platform: Platform) -> Result<
    bool,
    AreiaErrorView,
> {
    match platform {
        Platform::Windows => match queried(entry.attributes) {
            Ok(bits) => Ok(has_hidden_bit(bits)),
            Err(error) => Err(error),
        },
        _ => Ok(unix::any_hidden(path)),
    }
}

pub fn is_hidden(path: &FilePath, entry: &Entry, platform: Platform) -> (hidden: AreiaResult<bool>)
    ensures
        outcome(hidden) == is_hidden_spec(path@, entry@, platform),
{
    match platform {
        Platform::Windows => windows::is_any_component_hidden(path, entry),
        _ => unix::is_any_component_hidden(path),
    }
}

/// The answer of a platform without super hidden entries.
pub open spec fn unsupported() -> AreiaErrorView {
    AreiaErrorView::SuperHidingNotSupported("Super hiding not supported on this OS"@)
}

fn not_supported() -> (error: AreiaError)
    ensures
        error@ == unsupported(),
{
    AreiaError::SuperHidingNotSupported("Super hiding not supported on this OS".to_owned())
}

/// Whether an entry is super hidden on a platform, or the failure to tell.
pub open spec fn is_superhidden_spec(
    path: FilePathView,
    entry: EntryView,
    platform: Platform,
) -> Result<bool, AreiaErrorView> {
    match platform {
        Platform::Linux => Err(unsupported()),
        Platform::MacOs => macos::is_superhidden_spec(path, entry),
        Platform::Windows => match queried(entry.attributes) {
            Ok(bits) => Ok(has_super_hidden_bits(bits)),
            Err(error) => Err(error),
        },
    }
}

/// Only supports Mac & Windows
pub fn is_superhidden(path: &FilePath, entry: &Entry, platform: Platform) -> (hidden: AreiaResult<
    bool,
>)
    ensures
        outcome(hidden) == is_superhidden_spec(path@, entry@, platform),
{
    match platform {
        Platform::MacOs => macos::is_superhidden(path, entry),
        Platform::Windows => windows::is_superhidden(path, entry),
        Platform::Linux => Err(not_supported()),
    }
}

/// What super hiding does to an entry on a platform.
pub open spec fn super_hide_spec(path: FilePathView, entry: EntryView, platform: Platform) -> Result<
    TransitionView,
    AreiaErrorView,
> {
    match platform {
        Platform::Linux => Err(unsupported()),
        Platform::MacOs => macos::superhide_spec(path, entry),
        Platform::Windows => windows::rewrite(
            path,
            entry.attributes,
            |bits: u32| super_hidden_bits(bits),
        ),
    }
}

/// Only supports Mac & Windows
pub fn super_hide(path: &FilePath, entry: &Entry, platform: Platform) -> (result: AreiaResult<
    Transition,
>)
    ensures
        outcome(result) == super_hide_spec(path@, entry@, platform),
{
    match platform {
        Platform::MacOs => macos::superhide(path, entry),
        Platform::Windows => windows::super_hide(path, entry),
        Platform::Linux => Err(not_supported()),
    }
}

/// Whether super unhiding asks for the protected directories.
pub open spec fn super_hidden_now(path: FilePathView, platform: Platform) -> bool {
    match platform {
        Platform::Linux => false,
        Platform::MacOs => unix::any_hidden(path),
        Platform::Windows => true,
    }
}

/// What super unhiding does to an entry in a session.
pub open spec fn super_unhide_spec(path: FilePathView, entry: EntryView, env: Environment) -> Result<
    TransitionView,
    AreiaErrorView,
> {
    match env {
        Environment::Linux(_) => Err(unsupported()),
        Environment::MacOs(_) => macos::super_unhide_spec(path, entry, env),
        Environment::Windows(_) => windows::super_unhide_in(path, entry, env),
    }
}

/// Only supports Mac & Windows
pub fn super_unhide(path: &FilePath, entry: &Entry, env: &Environment) -> (result: AreiaResult<
    Transition,
>)
    requires
        super_hidden_now(path@, env.platform_of()) ==> resolvable(*env),
    ensures
        outcome(result) == super_unhide_spec(path@, entry@, *env),
{
    match env {
        Environment::MacOs(_) => macos::super_unhide(path, entry, env),
        Environment::Windows(_) => windows::super_unhide(path, entry, env),
        Environment::Linux(_) => Err(not_supported()),
    }
}

/// The action that removes what `path` points to: a file goes with the
/// directory that holds it, anything else goes with all that is in it.
pub open spec fn deletion_plan(path: FilePathView, entry: EntryView) -> Seq<FsActionView> {
    if entry.kind is File {
        match path.parent() {
            Some(parent) => seq![FsActionView::RemoveDirAll(parent)],
            None => seq![FsActionView::RemoveFile(path)],
        }
    } else {
        seq![FsActionView::RemoveDirAll(path)]
    }
}

/// Plans the removal of a directory with its files.  For a file, that is
/// the directory that holds it.
pub fn delete_all_dir_with_files(path: &FilePath, entry: &Entry) -> (plan: Vec<FsAction>)
    ensures
        actions_of(plan@) == deletion_plan(path@, entry@),
{
    if entry.is_file() {
        if let Some(parent) = path.parent() {
            single(FsAction::RemoveDirAll(parent))
        } else {
            single(FsAction::RemoveFile(path.clone()))
        }
    } else {
        single(FsAction::RemoveDirAll(path.clone()))
    }
}

pub fn make_hidden_path(path: &FilePath) -> (hidden: FilePath)
    ensures
        hidden@ == unix::hidden_path(path@),
        hidden@.wf(),
{
    unix::make_hidden_path(path)
}

} // verus!

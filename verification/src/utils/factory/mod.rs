//! The directories of a session, by purpose.  Each platform has its own
//! chain of sources; this module picks the platform's.

pub mod linux;
pub mod macos;
pub mod windows;

use crate::error::{outcome, AreiaErrorView, AreiaResult};
use crate::path::{absolute_if_present, parse, view_of, FilePath, FilePathView};
use crate::utils::factory::linux::{xdg, xdg_found};
use crate::utils::ffi::windows::FolderID;
use crate::utils::platform::{found, is_found, Environment, Platform};
use vstd::prelude::*;
use vstd::string::*;

verus! {

/// The path `text`, in the syntax of Linux and macOS, below `home`.
pub open spec fn below(home: FilePathView, text: &str) -> FilePathView {
    home.join(parse(Platform::Linux, text.spec_bytes()))
}

/// The path `text`, in the syntax of Linux and macOS, below `home`.
pub fn child(home: &FilePath, text: &str) -> (path: FilePath)
    ensures
        path@ == below(home@, text),
        path@.wf(),
        home@.is_absolute() ==> path@.is_absolute(),
{
    home.join(&FilePath::from_bytes(Platform::Linux, text.as_bytes()))
}

/// The directories for the user's content, by category; a category
/// without a directory has none.
#[derive(Debug)]
pub struct UsrDirs {
    pub music: Option<FilePath>,
    pub desktop: Option<FilePath>,
    pub documents: Option<FilePath>,
    pub downloads: Option<FilePath>,
    pub pictures: Option<FilePath>,
    pub public_share: Option<FilePath>,
    pub templates: Option<FilePath>,
    pub videos: Option<FilePath>,
    pub fonts: Option<FilePath>,
}

/// The mathematical value of a [`UsrDirs`].
pub ghost struct UsrDirsView {
    pub music: Option<FilePathView>,
    pub desktop: Option<FilePathView>,
    pub documents: Option<FilePathView>,
    pub downloads: Option<FilePathView>,
    pub pictures: Option<FilePathView>,
    pub public_share: Option<FilePathView>,
    pub templates: Option<FilePathView>,
    pub videos: Option<FilePathView>,
    pub fonts: Option<FilePathView>,
}

impl UsrDirsView {
    /// Every directory that is present is a well-formed absolute path.
    pub open spec fn all_absolute(self) -> bool {
        &&& absolute_if_present(self.music)
        &&& absolute_if_present(self.desktop)
        &&& absolute_if_present(self.documents)
        &&& absolute_if_present(self.downloads)
        &&& absolute_if_present(self.pictures)
        &&& absolute_if_present(self.public_share)
        &&& absolute_if_present(self.templates)
        &&& absolute_if_present(self.videos)
        &&& absolute_if_present(self.fonts)
    }
}

impl View for UsrDirs {
    type V = UsrDirsView;

    open spec fn view(&self) -> UsrDirsView {
        UsrDirsView {
            music: view_of(self.music),
            desktop: view_of(self.desktop),
            documents: view_of(self.documents),
            downloads: view_of(self.downloads),
            pictures: view_of(self.pictures),
            public_share: view_of(self.public_share),
            templates: view_of(self.templates),
            videos: view_of(self.videos),
            fonts: view_of(self.fonts),
        }
    }
}

/// The purposes that every platform has a directory for.
#[derive(Clone, Copy, Debug, PartialEq, Eq, Structural)]
pub enum Purpose {
    Cache,
    Config,
    ConfigLocal,
    Data,
    DataLocal,
    Preference,
}

/// The directory that serves a purpose: on Linux what a variable names or
/// a dotted directory below the home directory, on macOS a directory of
/// the user's library, on Windows a known folder.
pub open spec fn located(purpose: Purpose, home: FilePathView, env: Environment) -> Result<
    FilePathView,
    AreiaErrorView,
> {
    match env {
        Environment::Linux(env) => Ok(
            match purpose {
                Purpose::Cache => xdg(env.cache_home, home, ".cache"),
                Purpose::Config | Purpose::ConfigLocal | Purpose::Preference => xdg(
                    env.config_home,
                    home,
                    ".config",
                ),
                Purpose::Data | Purpose::DataLocal => xdg(env.data_home, home, ".local/share"),
            },
        ),
        Environment::MacOs(env) => Ok(
            match purpose {
                Purpose::Cache => below(home, "Library/Caches"),
                Purpose::Preference => below(home, "Library/Preferences"),
                _ => below(home, "Library/Application Support"),
            },
        ),
        Environment::Windows(env) => match purpose {
            Purpose::Cache | Purpose::ConfigLocal | Purpose::DataLocal => env.folders.path(
                FolderID::LocalAppData,
            ),
            _ => env.folders.path(FolderID::RoamingAppData),
        },
    }
}

/// Whether the directory that serves a purpose can be told.  A directory
/// below the home directory has to exist; Windows asks for nothing here.
pub open spec fn locatable(purpose: Purpose, home: FilePathView, env: Environment) -> bool {
    match env {
        Environment::Linux(env) => match purpose {
            Purpose::Cache => xdg_found(env.cache_home, home, ".cache", env.existing@),
            Purpose::Config | Purpose::ConfigLocal | Purpose::Preference => xdg_found(
                env.config_home,
                home,
                ".config",
                env.existing@,
            ),
            Purpose::Data | Purpose::DataLocal => xdg_found(
                env.data_home,
                home,
                ".local/share",
                env.existing@,
            ),
        },
        Environment::MacOs(env) => match purpose {
            Purpose::Cache => found(env.existing@, below(home, "Library/Caches")),
            Purpose::Preference => found(env.existing@, below(home, "Library/Preferences")),
            _ => found(env.existing@, below(home, "Library/Application Support")),
        },
        Environment::Windows(_) => true,
    }
}

/// The runtime directory: only Linux has one, and only where its variable
/// names an absolute path.
pub open spec fn runtime_dir_spec(env: Environment) -> Option<FilePathView> {
    match env {
        Environment::Linux(env) => linux::runtime_dir_spec(env),
        _ => None,
    }
}

/// The state directory: only Linux has one.
pub open spec fn state_dir_spec(home: FilePathView, env: Environment) -> Option<FilePathView> {
    match env {
        Environment::Linux(env) => Some(xdg(env.state_home, home, ".local/state")),
        _ => None,
    }
}

/// The directory for the user's executables: only Linux has one.
pub open spec fn executable_dir_spec(home: FilePathView, env: Environment) -> Option<
    FilePathView,
> {
    match env {
        Environment::Linux(env) => Some(xdg(env.bin_home, home, ".local/bin")),
        _ => None,
    }
}

/// Whether the state directory can be told.
pub open spec fn state_locatable(home: FilePathView, env: Environment) -> bool {
    match env {
        Environment::Linux(env) => xdg_found(env.state_home, home, ".local/state", env.existing@),
        _ => true,
    }
}

/// Whether the directory for the user's executables can be told.
pub open spec fn executable_locatable(home: FilePathView, env: Environment) -> bool {
    match env {
        Environment::Linux(env) => xdg_found(env.bin_home, home, ".local/bin", env.existing@),
        _ => true,
    }
}

/// Whether the home directory is laid out as the platform expects: every
/// base directory can be told.
pub open spec fn layout_found(home: FilePathView, env: Environment) -> bool {
    &&& locatable(Purpose::Cache, home, env)
    &&& locatable(Purpose::Config, home, env)
    &&& locatable(Purpose::Data, home, env)
    &&& locatable(Purpose::Preference, home, env)
    &&& state_locatable(home, env)
    &&& executable_locatable(home, env)
}

/// Whether a directory can be told: its variable names an absolute path,
/// or `text` below `home` exists.
fn has_xdg(variable: &Option<FilePath>, home: &FilePath, text: &str, existing: &Vec<FilePath>) -> (there:
    bool)
    ensures
        there == xdg_found(*variable, home@, text, existing@),
{
    let named = match variable {
        Some(path) => path.is_absolute(),
        None => false,
    };
    named || is_found(existing, &child(home, text))
}

/// Whether the home directory is laid out as the platform expects.  The
/// base directories can be resolved exactly where it is.
pub fn has_layout(home: &FilePath, env: &Environment) -> (there: bool)
    ensures
        there == layout_found(home@, *env),
{
    match env {
        Environment::Linux(env) => {
            has_xdg(&env.cache_home, home, ".cache", &env.existing) && has_xdg(
                &env.config_home,
                home,
                ".config",
                &env.existing,
            ) && has_xdg(&env.data_home, home, ".local/share", &env.existing) && has_xdg(
                &env.state_home,
                home,
                ".local/state",
                &env.existing,
            ) && has_xdg(&env.bin_home, home, ".local/bin", &env.existing)
        },
        Environment::MacOs(env) => {
            is_found(&env.existing, &child(home, "Library/Caches")) && is_found(
                &env.existing,
                &child(home, "Library/Application Support"),
            ) && is_found(&env.existing, &child(home, "Library/Preferences"))
        },
        Environment::Windows(_) => true,
    }
}

/// The directories whose existence has to be asked for before the
/// directories of a session can be resolved.
pub fn conventional_dirs(home: &FilePath, platform: Platform) -> (dirs: Vec<FilePath>)
    ensures
        platform is Windows ==> dirs@.len() == 0,
        platform is Linux ==> {
            &&& dirs@.len() == 6
            &&& dirs@[0]@ == below(home@, ".cache")
            &&& dirs@[1]@ == below(home@, ".config")
            &&& dirs@[2]@ == below(home@, ".local/share")
            &&& dirs@[3]@ == below(home@, ".local/state")
            &&& dirs@[4]@ == below(home@, ".local/bin")
            &&& dirs@[5]@ == below(home@, ".local/share/fonts")
        },
        platform is MacOs ==> {
            &&& dirs@.len() == 4
            &&& dirs@[0]@ == below(home@, "Library/Caches")
            &&& dirs@[1]@ == below(home@, "Library/Application Support")
            &&& dirs@[2]@ == below(home@, "Library/Preferences")
            &&& dirs@[3]@ == below(home@, "Library/Fonts")
        },
{
    match platform {
        Platform::Linux => linux::conventional_dirs(home),
        Platform::MacOs => macos::conventional_dirs(home),
        Platform::Windows => Vec::new(),
    }
}

pub fn cache_dir(home: FilePath, env: &Environment) -> (dir: AreiaResult<FilePath>)
    requires
        locatable(Purpose::Cache, home@, *env),
    ensures
        outcome(dir) == located(Purpose::Cache, home@, *env),
        dir is Ok ==> dir.unwrap()@.wf(),
        dir is Ok && home@.is_absolute() ==> dir.unwrap()@.is_absolute(),
{
    match env {
        Environment::Linux(env) => Ok(linux::cache_dir(home, env)),
        Environment::MacOs(env) => Ok(macos::cache_dir(home, env)),
        Environment::Windows(env) => windows::cache_dir(home, env),
    }
}

pub fn config_dir(home: FilePath, env: &Environment) -> (dir: AreiaResult<FilePath>)
    requires
        locatable(Purpose::Config, home@, *env),
    ensures
        outcome(dir) == located(Purpose::Config, home@, *env),
        dir is Ok ==> dir.unwrap()@.wf(),
        dir is Ok && home@.is_absolute() ==> dir.unwrap()@.is_absolute(),
{
    match env {
        Environment::Linux(env) => Ok(linux::config_dir(home, env)),
        Environment::MacOs(env) => Ok(macos::config_dir(home, env)),
        Environment::Windows(env) => windows::config_dir(home, env),
    }
}

pub fn config_local_dir(home: FilePath, env: &Environment) -> (dir: AreiaResult<FilePath>)
    requires
        locatable(Purpose::ConfigLocal, home@, *env),
    ensures
        outcome(dir) == located(Purpose::ConfigLocal, home@, *env),
        dir is Ok ==> dir.unwrap()@.wf(),
        dir is Ok && home@.is_absolute() ==> dir.unwrap()@.is_absolute(),
{
    match env {
        Environment::Linux(env) => Ok(linux::config_local_dir(home, env)),
        Environment::MacOs(env) => Ok(macos::config_local_dir(home, env)),
        Environment::Windows(env) => windows::config_local_dir(home, env),
    }
}

pub fn data_dir(home: FilePath, env: &Environment) -> (dir: AreiaResult<FilePath>)
    requires
        locatable(Purpose::Data, home@, *env),
    ensures
        outcome(dir) == located(Purpose::Data, home@, *env),
        dir is Ok ==> dir.unwrap()@.wf(),
        dir is Ok && home@.is_absolute() ==> dir.unwrap()@.is_absolute(),
{
    match env {
        Environment::Linux(env) => Ok(linux::data_dir(home, env)),
        Environment::MacOs(env) => Ok(macos::data_dir(home, env)),
        Environment::Windows(env) => windows::data_dir(home, env),
    }
}

pub fn data_local_dir(home: FilePath, env: &Environment) -> (dir: AreiaResult<FilePath>)
    requires
        locatable(Purpose::DataLocal, home@, *env),
    ensures
        outcome(dir) == located(Purpose::DataLocal, home@, *env),
        dir is Ok ==> dir.unwrap()@.wf(),
        dir is Ok && home@.is_absolute() ==> dir.unwrap()@.is_absolute(),
{
    match env {
        Environment::Linux(env) => Ok(linux::data_local_dir(home, env)),
        Environment::MacOs(env) => Ok(macos::data_local_dir(home, env)),
        Environment::Windows(env) => windows::data_local_dir(home, env),
    }
}

pub fn preference_dir(home: FilePath, env: &Environment) -> (dir: AreiaResult<FilePath>)
    requires
        locatable(Purpose::Preference, home@, *env),
    ensures
        outcome(dir) == located(Purpose::Preference, home@, *env),
        dir is Ok ==> dir.unwrap()@.wf(),
        dir is Ok && home@.is_absolute() ==> dir.unwrap()@.is_absolute(),
{
    match env {
        Environment::Linux(env) => Ok(linux::preference_dir(home, env)),
        Environment::MacOs(env) => Ok(macos::preference_dir(home, env)),
        Environment::Windows(env) => windows::preference_dir(home, env),
    }
}

pub fn runtime_dir(env: &Environment) -> (dir: Option<FilePath>)
    ensures
        view_of(dir) == runtime_dir_spec(*env),
        absolute_if_present(view_of(dir)),
{
    match env {
        Environment::Linux(env) => linux::runtime_dir(env),
        Environment::MacOs(_) => macos::runtime_dir(),
        Environment::Windows(_) => windows::runtime_dir(),
    }
}

pub fn state_dir(home: FilePath, env: &Environment) -> (dir: Option<FilePath>)
    requires
        state_locatable(home@, *env),
    ensures
        view_of(dir) == state_dir_spec(home@, *env),
        home@.is_absolute() ==> absolute_if_present(view_of(dir)),
{
    match env {
        Environment::Linux(env) => linux::state_dir(home, env),
        Environment::MacOs(_) => macos::state_dir(home),
        Environment::Windows(_) => windows::state_dir(home),
    }
}

pub fn executable_dir(home: FilePath, env: &Environment) -> (dir: Option<FilePath>)
    requires
        executable_locatable(home@, *env),
    ensures
        view_of(dir) == executable_dir_spec(home@, *env),
        home@.is_absolute() ==> absolute_if_present(view_of(dir)),
{
    match env {
        Environment::Linux(env) => linux::executable_dir(home, env),
        Environment::MacOs(_) => macos::executable_dir(home),
        Environment::Windows(_) => windows::executable_dir(home),
    }
}

/// The directories for the user's content on the platform of `env`.
pub open spec fn usr_dirs_spec(home: FilePathView, env: Environment) -> Result<
    UsrDirsView,
    AreiaErrorView,
> {
    match env {
        Environment::Linux(env) => linux::usr_dirs_spec(home, env),
        Environment::MacOs(env) => Ok(macos::usr_dirs_spec(home, env)),
        Environment::Windows(env) => windows::usr_dirs_spec(env),
    }
}

pub fn get_usr_dirs(home: FilePath, env: &Environment) -> (dirs: AreiaResult<UsrDirs>)
    ensures
        outcome(dirs) == usr_dirs_spec(home@, *env),
        dirs is Ok && home@.is_absolute() ==> dirs.unwrap()@.all_absolute(),
{
    match env {
        Environment::Linux(env) => linux::get_usr_dirs(home, env),
        Environment::MacOs(env) => macos::get_usr_dirs(home, env),
        Environment::Windows(env) => windows::get_usr_dirs(home, env),
    }
}

} // verus!

//! The platforms, and what a session on each of them shows of itself.

use crate::path::FilePath;
use vstd::prelude::*;

verus! {

/// The operating-system family whose conventions apply.
#[derive(Clone, Copy, Debug, PartialEq, Eq, Structural)]
pub enum Platform {
    Linux,
    MacOs,
    Windows,
}

impl Platform {
    /// Whether entries are hidden by their name (a leading dot) rather than
    /// by an attribute bit.
    pub open spec fn hides_by_name(self) -> bool {
        !(self is Windows)
    }

    pub fn uses_naming_convention(self) -> (by_name: bool)
        ensures
            by_name == self.hides_by_name(),
    {
        match self {
            Platform::Windows => false,
            _ => true,
        }
    }
}

/// A Linux session: its variables, the home directory that the user
/// database names, the conventional directories that were found to exist
/// and the content of the user-dirs configuration file.
#[derive(Debug)]
pub struct LinuxEnv {
    /// `HOME`
    pub home: Option<FilePath>,
    /// The home directory according to the user database.
    pub home_fallback: Option<FilePath>,
    /// `XDG_CACHE_HOME`
    pub cache_home: Option<FilePath>,
    /// `XDG_CONFIG_HOME`
    pub config_home: Option<FilePath>,
    /// `XDG_DATA_HOME`
    pub data_home: Option<FilePath>,
    /// `XDG_STATE_HOME`
    pub state_home: Option<FilePath>,
    /// `XDG_BIN_HOME`
    pub bin_home: Option<FilePath>,
    /// `XDG_RUNTIME_DIR`
    pub runtime_dir: Option<FilePath>,
    /// The directories that exist, among those that were looked for.
    pub existing: Vec<FilePath>,
    /// The bytes of `user-dirs.dirs`, or the message of the failure to
    /// read it.
    pub user_dirs_file: Result<Vec<u8>, String>,
}

/// A macOS session: `HOME`, the home directory according to the user
/// database and according to the system framework, and the conventional
/// directories that were found to exist.
#[derive(Debug)]
pub struct MacEnv {
    /// `HOME`
    pub home: Option<FilePath>,
    /// The home directory according to the user database.
    pub home_fallback: Option<FilePath>,
    /// The home directory according to the system framework.
    pub native_home: Option<FilePath>,
    /// The directories that exist, among those that were looked for.
    pub existing: Vec<FilePath>,
}

/// The answers of the Windows known-folder registry, each a path or the
/// message of the failed query.
#[derive(Debug)]
pub struct KnownFolders {
    pub profile: Result<FilePath, String>,
    pub local_app_data: Result<FilePath, String>,
    pub roaming_app_data: Result<FilePath, String>,
    pub desktop: Result<FilePath, String>,
    pub document: Result<FilePath, String>,
    pub download: Result<FilePath, String>,
    pub music: Result<FilePath, String>,
    pub picture: Result<FilePath, String>,
    pub public: Result<FilePath, String>,
    pub template: Result<FilePath, String>,
    pub video: Result<FilePath, String>,
}

/// A Windows session: the known folders and `USERPROFILE`.
#[derive(Debug)]
pub struct WindowsEnv {
    pub folders: KnownFolders,
    /// `USERPROFILE`
    pub user_profile: Option<FilePath>,
}

/// What a session shows of itself, by platform.
#[derive(Debug)]
pub enum Environment {
    Linux(LinuxEnv),
    MacOs(MacEnv),
    Windows(WindowsEnv),
}

impl Environment {
    pub open spec fn platform_of(self) -> Platform {
        match self {
            Environment::Linux(_) => Platform::Linux,
            Environment::MacOs(_) => Platform::MacOs,
            Environment::Windows(_) => Platform::Windows,
        }
    }

    pub fn platform(&self) -> (platform: Platform)
        ensures
            platform == self.platform_of(),
    {
        match self {
            Environment::Linux(_) => Platform::Linux,
            Environment::MacOs(_) => Platform::MacOs,
            Environment::Windows(_) => Platform::Windows,
        }
    }
}

/// Whether `path` is among the directories that exist.
pub open spec fn found(existing: Seq<FilePath>, path: crate::path::FilePathView) -> bool {
    exists|i: int| 0 <= i < existing.len() && (#[trigger] existing[i])@ == path
}

/// Whether `path` is among the directories that exist.
pub fn is_found(existing: &Vec<FilePath>, path: &FilePath) -> (there: bool)
    ensures
        there == found(existing@, path@),
{
    let mut i: usize = 0;
    while i < existing.len()
        invariant
            i <= existing.len(),
            forall|k: int| 0 <= k < i ==> (#[trigger] existing@[k])@ != path@,
        decreases existing.len() - i,
    {
        if existing[i] == *path {
            return true;
        }
        i += 1;
    }
    false
}

} // verus!

//! The directories that serve the system's purposes.

use crate::error::{outcome, AreiaErrorView, AreiaResult};
use crate::path::{absolute_if_present, view_of, FilePath, FilePathView};
use crate::utils::factory::{
    cache_dir, config_dir, config_local_dir, data_dir, data_local_dir, executable_dir,
    executable_dir_spec, layout_found, located, preference_dir, runtime_dir, runtime_dir_spec,
    state_dir, state_dir_spec, Purpose,
};
use crate::utils::platform::Environment;
use crate::utils::{get_home, home_spec};
use vstd::prelude::*;

verus! {

/// Base directories
///
/// This struct contains all the base directories:
///
/// - `home_dir`
/// - `cache_dir`
/// - `config_dir`
/// - `config_local_dir`
/// - `data_dir`
/// - `data_local_dir`
/// - `executable_dir` (If available)
/// - `preference_dir`
/// - `runtime_dir` (If available)
/// - `state_dir` (If available)
///
/// Create with `BaseDirs::new()`.
/// Get paths by using the provided functions on `BaseDirs`.
/// Every path of a `BaseDirs` is absolute.
#[derive(Debug)]
pub struct BaseDirs {
    home_dir: FilePath,
    cache_dir: FilePath,
    config_dir: FilePath,
    config_local_dir: FilePath,
    data_dir: FilePath,
    data_local_dir: FilePath,
    executable_dir: Option<FilePath>,
    preference_dir: FilePath,
    runtime_dir: Option<FilePath>,
    state_dir: Option<FilePath>,
}

/// The mathematical value of a [`BaseDirs`].
pub ghost struct BaseDirsView {
    pub home_dir: FilePathView,
    pub cache_dir: FilePathView,
    pub config_dir: FilePathView,
    pub config_local_dir: FilePathView,
    pub data_dir: FilePathView,
    pub data_local_dir: FilePathView,
    pub executable_dir: Option<FilePathView>,
    pub preference_dir: FilePathView,
    pub runtime_dir: Option<FilePathView>,
    pub state_dir: Option<FilePathView>,
}

impl BaseDirsView {
    /// Every path that is present is a well-formed absolute path.
    pub open spec fn wf(self) -> bool {
        &&& self.home_dir.is_absolute() && self.home_dir.wf()
        &&& self.cache_dir.is_absolute() && self.cache_dir.wf()
        &&& self.config_dir.is_absolute() && self.config_dir.wf()
        &&& self.config_local_dir.is_absolute() && self.config_local_dir.wf()
        &&& self.data_dir.is_absolute() && self.data_dir.wf()
        &&& self.data_local_dir.is_absolute() && self.data_local_dir.wf()
        &&& absolute_if_present(self.executable_dir)
        &&& self.preference_dir.is_absolute() && self.preference_dir.wf()
        &&& absolute_if_present(self.runtime_dir)
        &&& absolute_if_present(self.state_dir)
    }
}

impl View for BaseDirs {
    type V = BaseDirsView;

    closed spec fn view(&self) -> BaseDirsView {
        BaseDirsView {
            home_dir: self.home_dir@,
            cache_dir: self.cache_dir@,
            config_dir: self.config_dir@,
            config_local_dir: self.config_local_dir@,
            data_dir: self.data_dir@,
            data_local_dir: self.data_local_dir@,
            executable_dir: view_of(self.executable_dir),
            preference_dir: self.preference_dir@,
            runtime_dir: view_of(self.runtime_dir),
            state_dir: view_of(self.state_dir),
        }
    }
}

/// The value of a path that may be absent, seen through a reference.
pub open spec fn view_of_ref(path: Option<&FilePath>) -> Option<FilePathView> {
    match path {
        Some(path) => Some(path@),
        None => None,
    }
}

/// The failure of the first base directory that cannot be had, in the
/// order cache, config, local config, data, local data, preference.
pub open spec fn base_failure(home: FilePathView, env: Environment) -> Option<AreiaErrorView> {
    if located(Purpose::Cache, home, env) is Err {
        Some(located(Purpose::Cache, home, env)->Err_0)
    } else if located(Purpose::Config, home, env) is Err {
        Some(located(Purpose::Config, home, env)->Err_0)
    } else if located(Purpose::ConfigLocal, home, env) is Err {
        Some(located(Purpose::ConfigLocal, home, env)->Err_0)
    } else if located(Purpose::Data, home, env) is Err {
        Some(located(Purpose::Data, home, env)->Err_0)
    } else if located(Purpose::DataLocal, home, env) is Err {
        Some(located(Purpose::DataLocal, home, env)->Err_0)
    } else if located(Purpose::Preference, home, env) is Err {
        Some(located(Purpose::Preference, home, env)->Err_0)
    } else {
        None
    }
}

/// The base directories of a session: all of them, or the failure to find
/// the home directory or one of them.
pub open spec fn base_dirs_spec(env: Environment) -> Result<BaseDirsView, AreiaErrorView> {
    match home_spec(env) {
        Ok(home) => match base_failure(home, env) {
            Some(error) => Err(error),
            None => Ok(
                BaseDirsView {
                    home_dir: home,
                    cache_dir: located(Purpose::Cache, home, env)->Ok_0,
                    config_dir: located(Purpose::Config, home, env)->Ok_0,
                    config_local_dir: located(Purpose::ConfigLocal, home, env)->Ok_0,
                    data_dir: located(Purpose::Data, home, env)->Ok_0,
                    data_local_dir: located(Purpose::DataLocal, home, env)->Ok_0,
                    executable_dir: executable_dir_spec(home, env),
                    preference_dir: located(Purpose::Preference, home, env)->Ok_0,
                    runtime_dir: runtime_dir_spec(env),
                    state_dir: state_dir_spec(home, env),
                },
            ),
        },
        Err(error) => Err(error),
    }
}

/// Whether the base directories of a session can be resolved: where the
/// home directory is known, it is laid out as the platform expects.
pub open spec fn resolvable(env: Environment) -> bool {
    home_spec(env) is Ok ==> layout_found(home_spec(env)->Ok_0, env)
}

impl BaseDirs {
    #[verifier::type_invariant]
    spec fn well_formed(self) -> bool {
        self@.wf()
    }

    /// Create a new `BaseDirs`.
    /// All paths will be constructed based on the session that `env` shows.
    ///
    /// Returns an `AreiaResult` containing the `BaseDirs`
    ///
    /// The home directory has to be laid out as the platform expects, which
    /// `has_layout` tells: no missing directory is made up or created.
    ///
    /// # Errors
    ///
    /// Returns an `AreiaError` if the home directory could not be found or an OS error occurred
    pub fn new(env: &Environment) -> (dirs: AreiaResult<BaseDirs>)
        requires
            resolvable(*env),
        ensures
            outcome(dirs) == base_dirs_spec(*env),
            dirs is Ok ==> dirs.unwrap()@.wf(),
    {
        base_dirs(env)
    }

    /// Get the home directory
    ///
    /// | Linux | Windows | macOS |
    /// | --- | --- | --- |
    /// | `$HOME` | `{FolderID::Profile}` | `$HOME` |
    pub fn home_dir(&self) -> (dir: &FilePath)
        ensures
            dir@ == self@.home_dir,
            dir@.is_absolute(),
            self@.wf(),
    {
        proof {
            use_type_invariant(self);
        }
        &self.home_dir
    }

    /// Get the cache directory
    ///
    /// | Linux | Windows | macOS |
    /// | --- | --- | --- |
    /// | `$XDG_CACHE_HOME` OR `$HOME/.cache` | `{FolderID::LocalAppData}` | `$HOME/Library/Caches` |
    pub fn cache_dir(&self) -> (dir: &FilePath)
        ensures
            dir@ == self@.cache_dir,
            dir@.is_absolute(),
            self@.wf(),
    {
        proof {
            use_type_invariant(self);
        }
        &self.cache_dir
    }

    /// Get the config directory
    ///
    /// | Linux | Windows | macOS |
    /// | --- | --- | --- |
    /// | `$XDG_CONFIG_HOME` OR `$HOME/.config` | `{FolderID::RoamingAppData}` | `$HOME/Library/Application Support` |
    pub fn config_dir(&self) -> (dir: &FilePath)
        ensures
            dir@ == self@.config_dir,
            dir@.is_absolute(),
            self@.wf(),
    {
        proof {
            use_type_invariant(self);
        }
        &self.config_dir
    }

    /// Get the config local directory
    ///
    /// | Linux | Windows | macOS |
    /// | --- | --- | --- |
    /// | `$XDG_CONFIG_HOME` OR `$HOME/.config` | `{FolderID::LocalAppData}` | `$HOME/Library/Application Support` |
    pub fn config_local_dir(&self) -> (dir: &FilePath)
        ensures
            dir@ == self@.config_local_dir,
            dir@.is_absolute(),
            self@.wf(),
    {
        proof {
            use_type_invariant(self);
        }
        &self.config_local_dir
    }

    /// Get the data directory
    ///
    /// | Linux | Windows | macOS |
    /// | --- | --- | --- |
    /// | `$XDG_DATA_HOME` OR `$HOME/.local/share` | `{FolderID::RoamingAppData}` | `$HOME/Library/Application Support` |
    pub fn data_dir(&self) -> (dir: &FilePath)
        ensures
            dir@ == self@.data_dir,
            dir@.is_absolute(),
            self@.wf(),
    {
        proof {
            use_type_invariant(self);
        }
        &self.data_dir
    }

    /// Get the data local directory
    ///
    /// | Linux | Windows | macOS |
    /// | --- | --- | --- |
    /// | `$XDG_DATA_HOME` OR `$HOME/.local/share` | `{FolderID::LocalAppData}` | `$HOME/Library/Application Support` |
    pub fn data_local_dir(&self) -> (dir: &FilePath)
        ensures
            dir@ == self@.data_local_dir,
            dir@.is_absolute(),
            self@.wf(),
    {
        proof {
            use_type_invariant(self);
        }
        &self.data_local_dir
    }

    /// Get the executable directory
    ///
    /// | Linux | Windows | macOS |
    /// | --- | --- | --- |
    /// | `Some($XDG_BIN_HOME)` OR `Some($HOME/.local/bin)` | `None` | `None` |
    pub fn executable_dir(&self) -> (dir: Option<&FilePath>)
        ensures
            view_of_ref(dir) == self@.executable_dir,
            absolute_if_present(view_of_ref(dir)),
            self@.wf(),
    {
        proof {
            use_type_invariant(self);
        }
        self.executable_dir.as_ref()
    }

    /// Get the preference directory
    ///
    /// | Linux | Windows | macOS |
    /// | --- | --- | --- |
    /// | `$XDG_CONFIG_HOME` OR `$HOME/.config` | `{FolderID::RoamingAppData}` | `$HOME/Library/Preferences` |
    pub fn preference_dir(&self) -> (dir: &FilePath)
        ensures
            dir@ == self@.preference_dir,
            dir@.is_absolute(),
            self@.wf(),
    {
        proof {
            use_type_invariant(self);
        }
        &self.preference_dir
    }

    /// Get the runtime directory
    ///
    /// | Linux | Windows | macOS |
    /// | --- | --- | --- |
    /// | `Some($XDG_RUNTIME_DIR)` OR `None` | `None` | `None` |
    pub fn runtime_dir(&self) -> (dir: Option<&FilePath>)
        ensures
            view_of_ref(dir) == self@.runtime_dir,
            absolute_if_present(view_of_ref(dir)),
            self@.wf(),
    {
        proof {
            use_type_invariant(self);
        }
        self.runtime_dir.as_ref()
    }

    /// Get the state directory
    ///
    /// | Linux | Windows | macOS |
    /// | --- | --- | --- |
    /// | `Some($XDG_STATE_HOME)` OR `Some($HOME/.local/state)` | `None` | `None` |
    pub fn state_dir(&self) -> (dir: Option<&FilePath>)
        ensures
            view_of_ref(dir) == self@.state_dir,
            absolute_if_present(view_of_ref(dir)),
            self@.wf(),
    {
        proof {
            use_type_invariant(self);
        }
        self.state_dir.as_ref()
    }
}

pub fn base_dirs(env: &Environment) -> (dirs: AreiaResult<BaseDirs>)
    requires
        resolvable(*env),
    ensures
        outcome(dirs) == base_dirs_spec(*env),
        dirs is Ok ==> dirs.unwrap()@.wf(),
{
    match get_home(env) {
        Ok(home_dir) => {
            let cache_dir = cache_dir(home_dir.clone(), env)?;
            let config_dir = config_dir(home_dir.clone(), env)?;
            let config_local_dir = config_local_dir(home_dir.clone(), env)?;
            let data_dir = data_dir(home_dir.clone(), env)?;
            let data_local_dir = data_local_dir(home_dir.clone(), env)?;
            let preference_dir = preference_dir(home_dir.clone(), env)?;
            let runtime_dir = runtime_dir(env);
            let state_dir = state_dir(home_dir.clone(), env);
            let executable_dir = executable_dir(home_dir.clone(), env);
            Ok(
                BaseDirs {
                    home_dir,
                    cache_dir,
                    config_dir,
                    config_local_dir,
                    data_dir,
                    data_local_dir,
                    executable_dir,
                    preference_dir,
                    runtime_dir,
                    state_dir,
                },
            )
        },
        Err(err) => Err(err),
    }
}

} // verus!

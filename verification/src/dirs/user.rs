//! The directories that hold the user's own content.

use crate::error::{outcome, AreiaErrorView, AreiaResult};
use crate::path::{absolute_if_present, view_of, FilePath, FilePathView};
use crate::utils::factory::{get_usr_dirs, usr_dirs_spec};
use crate::utils::platform::Environment;
use crate::utils::{get_home, home_spec};
use vstd::prelude::*;

verus! {

/// User directories
///
/// This struct contains all the user directories:
///
/// - `home_dir`
/// - `audio_dir`
/// - `desktop_dir`
/// - `document_dir`
/// - `download_dir`
/// - `font_dir`
/// - `picture_dir`
/// - `public_dir`
/// - `template_dir`
/// - `video_dir`
///
/// Create with `UserDirs::new()`.
/// Get paths by using the provided functions on `UserDirs`.
/// Every path of a `UserDirs` is absolute.
#[derive(Debug)]
pub struct UserDirs {
    home_dir: FilePath,
    audio_dir: Option<FilePath>,
    desktop_dir: Option<FilePath>,
    document_dir: Option<FilePath>,
    download_dir: Option<FilePath>,
    font_dir: Option<FilePath>,
    picture_dir: Option<FilePath>,
    public_dir: Option<FilePath>,
    template_dir: Option<FilePath>,
    video_dir: Option<FilePath>,
}

/// The mathematical value of a [`UserDirs`].
pub ghost struct UserDirsView {
    pub home_dir: FilePathView,
    pub audio_dir: Option<FilePathView>,
    pub desktop_dir: Option<FilePathView>,
    pub document_dir: Option<FilePathView>,
    pub download_dir: Option<FilePathView>,
    pub font_dir: Option<FilePathView>,
    pub picture_dir: Option<FilePathView>,
    pub public_dir: Option<FilePathView>,
    pub template_dir: Option<FilePathView>,
    pub video_dir: Option<FilePathView>,
}

impl UserDirsView {
    /// Every path that is present is a well-formed absolute path.
    pub open spec fn wf(self) -> bool {
        &&& self.home_dir.is_absolute() && self.home_dir.wf()
        &&& absolute_if_present(self.audio_dir)
        &&& absolute_if_present(self.desktop_dir)
        &&& absolute_if_present(self.document_dir)
        &&& absolute_if_present(self.download_dir)
        &&& absolute_if_present(self.font_dir)
        &&& absolute_if_present(self.picture_dir)
        &&& absolute_if_present(self.public_dir)
        &&& absolute_if_present(self.template_dir)
        &&& absolute_if_present(self.video_dir)
    }
}

impl View for UserDirs {
    type V = UserDirsView;

    closed spec fn view(&self) -> UserDirsView {
        UserDirsView {
            home_dir: self.home_dir@,
            audio_dir: view_of(self.audio_dir),
            desktop_dir: view_of(self.desktop_dir),
            document_dir: view_of(self.document_dir),
            download_dir: view_of(self.download_dir),
            font_dir: view_of(self.font_dir),
            picture_dir: view_of(self.picture_dir),
            public_dir: view_of(self.public_dir),
            template_dir: view_of(self.template_dir),
            video_dir: view_of(self.video_dir),
        }
    }
}

/// The user directories of a session: the home directory and what the
/// platform's sources say of each category, or the failure to find the
/// home directory or to ask the sources.
pub open spec fn user_dirs_spec(env: Environment) -> Result<UserDirsView, AreiaErrorView> {
    match home_spec(env) {
        Ok(home) => match usr_dirs_spec(home, env) {
            Ok(dirs) => Ok(
                UserDirsView {
                    home_dir: home,
                    audio_dir: dirs.music,
                    desktop_dir: dirs.desktop,
                    document_dir: dirs.documents,
                    download_dir: dirs.downloads,
                    font_dir: dirs.fonts,
                    picture_dir: dirs.pictures,
                    public_dir: dirs.public_share,
                    template_dir: dirs.templates,
                    video_dir: dirs.videos,
                },
            ),
            Err(error) => Err(error),
        },
        Err(error) => Err(error),
    }
}

impl UserDirs {
    #[verifier::type_invariant]
    spec fn well_formed(self) -> bool {
        self@.wf()
    }

    /// Create a new `UserDirs`.
    /// All paths will be constructed based on the session that `env` shows.
    ///
    /// Returns an `AreiaResult` containing the `UserDirs`
    ///
    /// # Errors
    ///
    /// Returns an `AreiaError` if the home directory could not be found or an OS error occurred
    pub fn new(env: &Environment) -> (dirs: AreiaResult<UserDirs>)
        ensures
            outcome(dirs) == user_dirs_spec(*env),
            dirs is Ok ==> dirs.unwrap()@.wf(),
    {
        user_dirs(env)
    }

    /// Get the home directory
    ///
    /// | Linux | Windows | macOS |
    /// | --- | --- | --- |
    /// | `$HOME` | `{FolderID::Profile}` | `$HOME` |
    pub fn home_dir(&self) -> (dir: &FilePath)
        ensures
            dir@ == self@.home_dir,
            dir@.is_absolute(),
            self@.wf(),
    {
        proof {
            use_type_invariant(self);
        }
        &self.home_dir
    }

    /// Get the audio directory
    ///
    /// | Linux | Windows | macOS |
    /// | --- | --- | --- |
    /// | `Some($XDG_MUSIC_DIR)` OR `None` | `Some({FolderID::Music})` | `Some($HOME/Music)` |
    pub fn audio_dir(&self) -> (dir: &Option<FilePath>)
        ensures
            view_of(*dir) == self@.audio_dir,
            absolute_if_present(view_of(*dir)),
            self@.wf(),
    {
        proof {
            use_type_invariant(self);
        }
        &self.audio_dir
    }

    /// Get the desktop directory
    ///
    /// | Linux | Windows | macOS |
    /// | --- | --- | --- |
    /// | `Some($XDG_DESKTOP_DIR)` OR `None` | `Some({FolderID::Desktop})` | `Some($HOME/Desktop)` |
    pub fn desktop_dir(&self) -> (dir: &Option<FilePath>)
        ensures
            view_of(*dir) == self@.desktop_dir,
            absolute_if_present(view_of(*dir)),
            self@.wf(),
    {
        proof {
            use_type_invariant(self);
        }
        &self.desktop_dir
    }

    /// Get the document directory
    ///
    /// | Linux | Windows | macOS |
    /// | --- | --- | --- |
    /// | `Some($XDG_DOCUMENTS_DIR)` OR `None` | `Some({FolderID::Documents})` | `Some($HOME/Documents)` |
    pub fn document_dir(&self) -> (dir: &Option<FilePath>)
        ensures
            view_of(*dir) == self@.document_dir,
            absolute_if_present(view_of(*dir)),
            self@.wf(),
    {
        proof {
            use_type_invariant(self);
        }
        &self.document_dir
    }

    /// Get the download directory
    ///
    /// | Linux | Windows | macOS |
    /// | --- | --- | --- |
    /// | `Some($XDG_DOWNLOAD_DIR)` OR `None` | `Some({FolderID::Downloads})` | `Some($HOME/Downloads)` |
    pub fn download_dir(&self) -> (dir: &Option<FilePath>)
        ensures
            view_of(*dir) == self@.download_dir,
            absolute_if_present(view_of(*dir)),
            self@.wf(),
    {
        proof {
            use_type_invariant(self);
        }
        &self.download_dir
    }

    /// Get the font directory
    ///
    /// | Linux | Windows | macOS |
    /// | --- | --- | --- |
    /// | `Some($HOME/.local/share/fonts)` OR `None` | `None` | `Some($HOME/Library/Fonts)` OR `None` |
    pub fn font_dir(&self) -> (dir: &Option<FilePath>)
        ensures
            view_of(*dir) == self@.font_dir,
            absolute_if_present(view_of(*dir)),
            self@.wf(),
    {
        proof {
            use_type_invariant(self);
        }
        &self.font_dir
    }

    /// Get the picture directory
    ///
    /// | Linux | Windows | macOS |
    /// | --- | --- | --- |
    /// | `Some($XDG_PICTURES_DIR)` OR `None` | `Some({FolderID::Pictures})` | `Some($HOME/Pictures)` |
    pub fn picture_dir(&self) -> (dir: &Option<FilePath>)
        ensures
            view_of(*dir) == self@.picture_dir,
            absolute_if_present(view_of(*dir)),
            self@.wf(),
    {
        proof {
            use_type_invariant(self);
        }
        &self.picture_dir
    }

    /// Get the public directory
    ///
    /// | Linux | Windows | macOS |
    /// | --- | --- | --- |
    /// | `Some($XDG_PUBLICSHARE_DIR)` OR `None` | `Some({FolderID::Public})` | `Some($HOME/Public)` |
    pub fn public_dir(&self) -> (dir: &Option<FilePath>)
        ensures
            view_of(*dir) == self@.public_dir,
            absolute_if_present(view_of(*dir)),
            self@.wf(),
    {
        proof {
            use_type_invariant(self);
        }
        &self.public_dir
    }

    /// Get the template directory
    ///
    /// | Linux | Windows | macOS |
    /// | --- | --- | --- |
    /// | `Some($XDG_TEMPLATES_DIR)` OR `None` | `Some({FolderID::Templates})` | `None` |
    pub fn template_dir(&self) -> (dir: &Option<FilePath>)
        ensures
            view_of(*dir) == self@.template_dir,
            absolute_if_present(view_of(*dir)),
            self@.wf(),
    {
        proof {
            use_type_invariant(self);
        }
        &self.template_dir
    }

    /// Get the video directory
    ///
    /// | Linux | Windows | macOS |
    /// | --- | --- | --- |
    /// | `Some($XDG_VIDEOS_DIR)` OR `None` | `Some({FolderID::Videos})` | `Some($HOME/Movies)` |
    pub fn video_dir(&self) -> (dir: &Option<FilePath>)
        ensures
            view_of(*dir) == self@.video_dir,
            absolute_if_present(view_of(*dir)),
            self@.wf(),
    {
        proof {
            use_type_invariant(self);
        }
        &self.video_dir
    }
}

pub fn user_dirs(env: &Environment) -> (dirs: AreiaResult<UserDirs>)
    ensures
        outcome(dirs) == user_dirs_spec(*env),
        dirs is Ok ==> dirs.unwrap()@.wf(),
{
    let home_dir = get_home(env)?;
    let usr_dirs = get_usr_dirs(home_dir.clone(), env)?;
    let audio_dir = usr_dirs.music;
    let desktop_dir = usr_dirs.desktop;
    let document_dir = usr_dirs.documents;
    let download_dir = usr_dirs.downloads;
    let font_dir = usr_dirs.fonts;
    let picture_dir = usr_dirs.pictures;
    let public_dir = usr_dirs.public_share;
    let template_dir = usr_dirs.templates;
    let video_dir = usr_dirs.videos;
    Ok(
        UserDirs {
            home_dir,
            audio_dir,
            desktop_dir,
            document_dir,
            download_dir,
            font_dir,
            picture_dir,
            public_dir,
            template_dir,
            video_dir,
        },
    )
}

} // verus!

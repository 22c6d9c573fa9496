//! The directories of a Windows session: the answers of the known-folder
//! registry.

use crate::error::{outcome, AreiaErrorView, AreiaResult};
use crate::path::FilePath;
use crate::utils::factory::{UsrDirs, UsrDirsView};
use crate::utils::ffi::windows::{get_path, FolderID};
use crate::utils::platform::{KnownFolders, WindowsEnv};
use vstd::prelude::*;

verus! {

pub fn cache_dir(home: FilePath, env: &WindowsEnv) -> (dir: AreiaResult<FilePath>)
    ensures
        outcome(dir) == env.folders.path(FolderID::LocalAppData),
        dir is Ok ==> dir.unwrap()@.is_absolute() && dir.unwrap()@.wf(),
{
    data_local_dir(home, env)
}

pub fn config_dir(home: FilePath, env: &WindowsEnv) -> (dir: AreiaResult<FilePath>)
    ensures
        outcome(dir) == env.folders.path(FolderID::RoamingAppData),
        dir is Ok ==> dir.unwrap()@.is_absolute() && dir.unwrap()@.wf(),
{
    data_dir(home, env)
}

pub fn data_dir(_home: FilePath, env: &WindowsEnv) -> (dir: AreiaResult<FilePath>)
    ensures
        outcome(dir) == env.folders.path(FolderID::RoamingAppData),
        dir is Ok ==> dir.unwrap()@.is_absolute() && dir.unwrap()@.wf(),
{
    get_path(FolderID::RoamingAppData, &env.folders)
}

pub fn data_local_dir(_home: FilePath, env: &WindowsEnv) -> (dir: AreiaResult<FilePath>)
    ensures
        outcome(dir) == env.folders.path(FolderID::LocalAppData),
        dir is Ok ==> dir.unwrap()@.is_absolute() && dir.unwrap()@.wf(),
{
    get_path(FolderID::LocalAppData, &env.folders)
}

pub fn runtime_dir() -> (dir: Option<FilePath>)
    ensures
        dir is None,
{
    None
}

pub fn state_dir(_home: FilePath) -> (dir: Option<FilePath>)
    ensures
        dir is None,
{
    None
}

pub fn executable_dir(_home: FilePath) -> (dir: Option<FilePath>)
    ensures
        dir is None,
{
    None
}

pub fn config_local_dir(home: FilePath, env: &WindowsEnv) -> (dir: AreiaResult<FilePath>)
    ensures
        outcome(dir) == env.folders.path(FolderID::LocalAppData),
        dir is Ok ==> dir.unwrap()@.is_absolute() && dir.unwrap()@.wf(),
{
    data_local_dir(home, env)
}

pub fn preference_dir(home: FilePath, env: &WindowsEnv) -> (dir: AreiaResult<FilePath>)
    ensures
        outcome(dir) == env.folders.path(FolderID::RoamingAppData),
        dir is Ok ==> dir.unwrap()@.is_absolute() && dir.unwrap()@.wf(),
{
    data_dir(home, env)
}

pub fn font_dir(_home: FilePath) -> (dir: Option<FilePath>)
    ensures
        dir is None,
{
    None
}

/// The folders that hold the user's content, in the order in which they
/// are asked for.
pub open spec fn content_folders() -> Seq<FolderID> {
    seq![
        FolderID::Music,
        FolderID::Desktop,
        FolderID::Document,
        FolderID::Picture,
        FolderID::Public,
        FolderID::Template,
        FolderID::Video,
        FolderID::Download,
    ]
}

/// The failure of the first of `wanted` that is not known, if there is one.
pub open spec fn first_failure(folders: KnownFolders, wanted: Seq<FolderID>) -> Option<
    AreiaErrorView,
>
    decreases wanted.len(),
{
    if wanted.len() == 0 {
        None
    } else {
        match folders.path(wanted[0]) {
            Err(error) => Some(error),
            Ok(_) => first_failure(folders, wanted.skip(1)),
        }
    }
}

/// The directories for the user's content: the known folders, and none for
/// fonts.  The first folder that is not known fails them all.
pub open spec fn usr_dirs_spec(env: WindowsEnv) -> Result<UsrDirsView, AreiaErrorView> {
    match first_failure(env.folders, content_folders()) {
        Some(error) => Err(error),
        None => Ok(
            UsrDirsView {
                music: Some(env.folders.path(FolderID::Music)->Ok_0),
                desktop: Some(env.folders.path(FolderID::Desktop)->Ok_0),
                documents: Some(env.folders.path(FolderID::Document)->Ok_0),
                downloads: Some(env.folders.path(FolderID::Download)->Ok_0),
                pictures: Some(env.folders.path(FolderID::Picture)->Ok_0),
                public_share: Some(env.folders.path(FolderID::Public)->Ok_0),
                templates: Some(env.folders.path(FolderID::Template)->Ok_0),
                videos: Some(env.folders.path(FolderID::Video)->Ok_0),
                fonts: None,
            },
        ),
    }
}

/// The failure among the folders for the user's content is that of the
/// first one, in their order, that is not known; there is none exactly
/// if all of them are known.
pub proof fn lemma_first_failure(folders: KnownFolders)
    ensures
        first_failure(folders, content_folders()) == if folders.path(FolderID::Music) is Err {
            Some(folders.path(FolderID::Music)->Err_0)
        } else if folders.path(FolderID::Desktop) is Err {
            Some(folders.path(FolderID::Desktop)->Err_0)
        } else if folders.path(FolderID::Document) is Err {
            Some(folders.path(FolderID::Document)->Err_0)
        } else if folders.path(FolderID::Picture) is Err {
            Some(folders.path(FolderID::Picture)->Err_0)
        } else if folders.path(FolderID::Public) is Err {
            Some(folders.path(FolderID::Public)->Err_0)
        } else if folders.path(FolderID::Template) is Err {
            Some(folders.path(FolderID::Template)->Err_0)
        } else if folders.path(FolderID::Video) is Err {
            Some(folders.path(FolderID::Video)->Err_0)
        } else if folders.path(FolderID::Download) is Err {
            Some(folders.path(FolderID::Download)->Err_0)
        } else {
            None
        },
{
    reveal_with_fuel(first_failure, 9);
    let wanted = content_folders();
    assert(wanted.skip(1)[0] == FolderID::Desktop);
    assert(wanted.skip(1).skip(1)[0] == FolderID::Document);
    assert(wanted.skip(1).skip(1).skip(1)[0] == FolderID::Picture);
    assert(wanted.skip(1).skip(1).skip(1).skip(1)[0] == FolderID::Public);
    assert(wanted.skip(1).skip(1).skip(1).skip(1).skip(1)[0] == FolderID::Template);
    assert(wanted.skip(1).skip(1).skip(1).skip(1).skip(1).skip(1)[0] == FolderID::Video);
    assert(wanted.skip(1).skip(1).skip(1).skip(1).skip(1).skip(1).skip(1)[0]
        == FolderID::Download);
    assert(wanted.skip(1).skip(1).skip(1).skip(1).skip(1).skip(1).skip(1).skip(1).len() == 0);
}

pub fn get_usr_dirs(home: FilePath, env: &WindowsEnv) -> (dirs: AreiaResult<UsrDirs>)
    ensures
        outcome(dirs) == usr_dirs_spec(*env),
        dirs is Ok ==> dirs.unwrap()@.all_absolute(),
{
    proof {
        lemma_first_failure(env.folders);
    }
    let music = get_path(FolderID::Music, &env.folders)?;
    let desktop = get_path(FolderID::Desktop, &env.folders)?;
    let documents = get_path(FolderID::Document, &env.folders)?;
    let pictures = get_path(FolderID::Picture, &env.folders)?;
    let public = get_path(FolderID::Public, &env.folders)?;
    let templates = get_path(FolderID::Template, &env.folders)?;
    let videos = get_path(FolderID::Video, &env.folders)?;
    let fonts = font_dir(home);
    let downloads = get_path(FolderID::Download, &env.folders)?;
    Ok(
        UsrDirs {
            music: Some(music),
            desktop: Some(desktop),
            documents: Some(documents),
            downloads: Some(downloads),
            pictures: Some(pictures),
            public_share: Some(public),
            templates: Some(templates),
            videos: Some(videos),
            fonts,
        },
    )
}

} // verus!

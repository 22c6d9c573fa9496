//! The directories of a macOS session: fixed places below the home
//! directory.

use crate::error::{outcome, AreiaErrorView, AreiaResult};
use crate::path::{view_of, FilePath, FilePathView};
use crate::utils::factory::{below, child, UsrDirs, UsrDirsView};
use crate::utils::platform::{found, MacEnv};
use crate::utils::unix::is_existent_path;
use vstd::pervasive::unreached;
use vstd::prelude::*;

verus! {

/// The directory `text` below `home`, which has to exist.
fn required(home: &FilePath, text: &str, env: &MacEnv) -> (dir: FilePath)
    requires
        found(env.existing@, below(home@, text)),
    ensures
        dir@ == below(home@, text),
        dir@.wf(),
        home@.is_absolute() ==> dir@.is_absolute(),
{
    match is_existent_path(child(home, text), &env.existing) {
        Some(out) => out,
        None => unreached(),
    }
}

pub fn cache_dir(home: FilePath, env: &MacEnv) -> (dir: FilePath)
    requires
        found(env.existing@, below(home@, "Library/Caches")),
    ensures
        dir@ == below(home@, "Library/Caches"),
        dir@.wf(),
        home@.is_absolute() ==> dir@.is_absolute(),
{
    required(&home, "Library/Caches", env)
}

pub fn config_dir(home: FilePath, env: &MacEnv) -> (dir: FilePath)
    requires
        found(env.existing@, below(home@, "Library/Application Support")),
    ensures
        dir@ == below(home@, "Library/Application Support"),
        dir@.wf(),
        home@.is_absolute() ==> dir@.is_absolute(),
{
    required(&home, "Library/Application Support", env)
}

pub fn config_local_dir(home: FilePath, env: &MacEnv) -> (dir: FilePath)
    requires
        found(env.existing@, below(home@, "Library/Application Support")),
    ensures
        dir@ == below(home@, "Library/Application Support"),
        dir@.wf(),
        home@.is_absolute() ==> dir@.is_absolute(),
{
    config_dir(home, env)
}

pub fn data_dir(home: FilePath, env: &MacEnv) -> (dir: FilePath)
    requires
        found(env.existing@, below(home@, "Library/Application Support")),
    ensures
        dir@ == below(home@, "Library/Application Support"),
        dir@.wf(),
        home@.is_absolute() ==> dir@.is_absolute(),
{
    config_dir(home, env)
}

pub fn data_local_dir(home: FilePath, env: &MacEnv) -> (dir: FilePath)
    requires
        found(env.existing@, below(home@, "Library/Application Support")),
    ensures
        dir@ == below(home@, "Library/Application Support"),
        dir@.wf(),
        home@.is_absolute() ==> dir@.is_absolute(),
{
    config_dir(home, env)
}

pub fn runtime_dir() -> (dir: Option<FilePath>)
    ensures
        dir is None,
{
    None
}

pub fn state_dir(_home: FilePath) -> (dir: Option<FilePath>)
    ensures
        dir is None,
{
    None
}

pub fn executable_dir(_home: FilePath) -> (dir: Option<FilePath>)
    ensures
        dir is None,
{
    None
}

pub fn preference_dir(home: FilePath, env: &MacEnv) -> (dir: FilePath)
    requires
        found(env.existing@, below(home@, "Library/Preferences")),
    ensures
        dir@ == below(home@, "Library/Preferences"),
        dir@.wf(),
        home@.is_absolute() ==> dir@.is_absolute(),
{
    required(&home, "Library/Preferences", env)
}

/// The font directory, where it exists.
pub open spec fn font_dir_spec(home: FilePathView, env: MacEnv) -> Option<FilePathView> {
    if found(env.existing@, below(home, "Library/Fonts")) {
        Some(below(home, "Library/Fonts"))
    } else {
        None
    }
}

pub fn font_dir(home: FilePath, env: &MacEnv) -> (dir: Option<FilePath>)
    ensures
        view_of(dir) == font_dir_spec(home@, *env),
        dir is Some ==> dir.unwrap()@.wf(),
{
    is_existent_path(child(&home, "Library/Fonts"), &env.existing)
}

/// The directories for the user's content: fixed names below the home
/// directory, the font directory where it exists, and none for templates.
pub open spec fn usr_dirs_spec(home: FilePathView, env: MacEnv) -> UsrDirsView {
    UsrDirsView {
        music: Some(below(home, "Music")),
        desktop: Some(below(home, "Desktop")),
        documents: Some(below(home, "Documents")),
        downloads: Some(below(home, "Downloads")),
        pictures: Some(below(home, "Pictures")),
        public_share: Some(below(home, "Public")),
        templates: None,
        videos: Some(below(home, "Movies")),
        fonts: font_dir_spec(home, env),
    }
}

pub fn get_usr_dirs(home: FilePath, env: &MacEnv) -> (dirs: AreiaResult<UsrDirs>)
    ensures
        outcome(dirs) == Ok::<UsrDirsView, AreiaErrorView>(usr_dirs_spec(home@, *env)),
        home@.is_absolute() ==> dirs.unwrap()@.all_absolute(),
{
    let music = child(&home, "Music");
    let desktop = child(&home, "Desktop");
    let documents = child(&home, "Documents");
    let downloads = child(&home, "Downloads");
    let pictures = child(&home, "Pictures");
    let public = child(&home, "Public");
    let movies = child(&home, "Movies");
    let fonts = is_existent_path(child(&home, "Library/Fonts"), &env.existing);
    Ok(
        UsrDirs {
            music: Some(music),
            desktop: Some(desktop),
            documents: Some(documents),
            downloads: Some(downloads),
            pictures: Some(pictures),
            public_share: Some(public),
            templates: None,
            videos: Some(movies),
            fonts,
        },
    )
}

/// The directories whose existence a macOS session has to be asked for.
pub fn conventional_dirs(home: &FilePath) -> (dirs: Vec<FilePath>)
    ensures
        dirs@.len() == 4,
        dirs@[0]@ == below(home@, "Library/Caches"),
        dirs@[1]@ == below(home@, "Library/Application Support"),
        dirs@[2]@ == below(home@, "Library/Preferences"),
        dirs@[3]@ == below(home@, "Library/Fonts"),
{
    let mut dirs: Vec<FilePath> = Vec::new();
    dirs.push(child(home, "Library/Caches"));
    dirs.push(child(home, "Library/Application Support"));
    dirs.push(child(home, "Library/Preferences"));
    dirs.push(child(home, "Library/Fonts"));
    dirs
}

} // verus!

//! The attribute bits and the known folders of Windows.

use crate::error::{outcome, AreiaError, AreiaErrorView, AreiaResult};
use crate::fs::{answer_of, FsAction, FsActionView};
use crate::path::{FilePath, FilePathView};
use crate::utils::platform::KnownFolders;
use vstd::prelude::*;

verus! {

/// The folders that can be asked for by identifier.
#[derive(Clone, Copy, Debug, PartialEq, Eq, Structural)]
pub enum FolderID {
    Profile,
    LocalAppData,
    RoamingAppData,
    Desktop,
    Document,
    Download,
    Music,
    Picture,
    Public,
    Template,
    Video,
}

pub const FILE_ATTRIBUTE_HIDDEN: u32 = 0x02;

// For "super" hiding like on mac
pub const FILE_ATTRIBUTE_SYSTEM: u32 = 0x04;

pub const FILE_ATTRIBUTE_NORMAL: u32 = 0x80;

/// The bits of a hidden entry: the hidden bit joins those that are set; the
/// bit that marks an entry without any attribute goes.
pub open spec fn hidden_bits(bits: u32) -> u32 {
    (bits | FILE_ATTRIBUTE_HIDDEN) & !FILE_ATTRIBUTE_NORMAL
}

/// The bits of a super hidden entry: hidden and system.
pub open spec fn super_hidden_bits(bits: u32) -> u32 {
    ((bits | FILE_ATTRIBUTE_HIDDEN) | FILE_ATTRIBUTE_SYSTEM) & !FILE_ATTRIBUTE_NORMAL
}

/// The bits of a visible entry: the hidden bit goes; an entry that is left
/// without any bit is marked normal.
pub open spec fn shown_bits(bits: u32) -> u32 {
    if bits & !FILE_ATTRIBUTE_HIDDEN == 0 {
        FILE_ATTRIBUTE_NORMAL
    } else {
        bits & !FILE_ATTRIBUTE_HIDDEN
    }
}

/// The bits of an entry that is neither hidden nor a system entry.
pub open spec fn super_shown_bits(bits: u32) -> u32 {
    if (bits & !FILE_ATTRIBUTE_HIDDEN) & !FILE_ATTRIBUTE_SYSTEM == 0 {
        FILE_ATTRIBUTE_NORMAL
    } else {
        (bits & !FILE_ATTRIBUTE_HIDDEN) & !FILE_ATTRIBUTE_SYSTEM
    }
}

pub open spec fn has_hidden_bit(bits: u32) -> bool {
    bits & FILE_ATTRIBUTE_HIDDEN != 0
}

pub open spec fn has_super_hidden_bits(bits: u32) -> bool {
    bits & FILE_ATTRIBUTE_HIDDEN != 0 && bits & FILE_ATTRIBUTE_SYSTEM != 0
}

/// The attribute bits that were read, or the failure to read them.
pub open spec fn queried(attributes: Result<u32, Seq<char>>) -> Result<u32, AreiaErrorView> {
    match attributes {
        Ok(bits) => Ok(bits),
        Err(message) => Err(AreiaErrorView::WindowsIoError(message)),
    }
}

/// The change of an entry's bits by `change`, or the failure to read them.
pub open spec fn rewritten(
    path: FilePathView,
    attributes: Result<u32, Seq<char>>,
    change: spec_fn(u32) -> u32,
) -> Result<FsActionView, AreiaErrorView> {
    match queried(attributes) {
        Ok(bits) => Ok(FsActionView::SetAttributes { path, bits: change(bits) }),
        Err(error) => Err(error),
    }
}

/// Hands on the attribute bits that were read of an entry, or the failure
/// to read them.
fn attributes_of(attributes: &Result<u32, String>) -> (bits: AreiaResult<u32>)
    ensures
        outcome(bits) == queried(answer_of(*attributes)),
{
    match attributes {
        Ok(bits) => Ok(*bits),
        Err(message) => Err(AreiaError::WindowsIoError(message.clone())),
    }
}

/// Sets the hidden attribute for a file or directory and keeps any existing attributes
pub fn mark_hidden(path: &FilePath, attributes: &Result<u32, String>) -> (action: AreiaResult<FsAction>)
    ensures
        outcome(action) == rewritten(path@, answer_of(*attributes), |bits: u32| hidden_bits(bits)),
{
    let attrs = attributes_of(attributes)?;
    let mut new_attrs = attrs | FILE_ATTRIBUTE_HIDDEN;
    new_attrs &= !FILE_ATTRIBUTE_NORMAL;
    Ok(FsAction::SetAttributes { path: path.clone(), bits: new_attrs })
}

pub fn super_hide(path: &FilePath, attributes: &Result<u32, String>) -> (action: AreiaResult<
    FsAction,
>)
    ensures
        outcome(action) == rewritten(path@, answer_of(*attributes), |bits: u32| super_hidden_bits(bits)),
{
    let attrs = attributes_of(attributes)?;
    let mut new_attrs = attrs | FILE_ATTRIBUTE_HIDDEN;
    new_attrs |= FILE_ATTRIBUTE_SYSTEM;
    new_attrs &= !FILE_ATTRIBUTE_NORMAL;
    Ok(FsAction::SetAttributes { path: path.clone(), bits: new_attrs })
}

/// Removes the hidden and the system attribute for a file or directory and keeps any other
/// attributes
pub fn super_unhide(path: &FilePath, attributes: &Result<u32, String>) -> (action: AreiaResult<
    FsAction,
>)
    ensures
        outcome(action) == rewritten(path@, answer_of(*attributes), |bits: u32| super_shown_bits(bits)),
{
    let attrs = attributes_of(attributes)?;
    let mut new_attrs = attrs & !FILE_ATTRIBUTE_HIDDEN;
    new_attrs &= !FILE_ATTRIBUTE_SYSTEM;
    if new_attrs == 0 {
        new_attrs = FILE_ATTRIBUTE_NORMAL;
    }
    Ok(FsAction::SetAttributes { path: path.clone(), bits: new_attrs })
}

/// Removes the hidden attribute for a file or directory and keeps any existing attributes
pub fn unhide(path: &FilePath, attributes: &Result<u32, String>) -> (action: AreiaResult<FsAction>)
    ensures
        outcome(action) == rewritten(path@, answer_of(*attributes), |bits: u32| shown_bits(bits)),
{
    let attrs = attributes_of(attributes)?;
    let mut new_attrs = attrs & !FILE_ATTRIBUTE_HIDDEN;
    if new_attrs == 0 {
        new_attrs = FILE_ATTRIBUTE_NORMAL;
    }
    Ok(FsAction::SetAttributes { path: path.clone(), bits: new_attrs })
}

/// Checks if the hidden attribute is set
pub fn is_hidden(attributes: &Result<u32, String>) -> (hidden: AreiaResult<bool>)
    ensures
        outcome(hidden) == match queried(answer_of(*attributes)) {
            Ok(bits) => Ok::<bool, AreiaErrorView>(has_hidden_bit(bits)),
            Err(error) => Err(error),
        },
{
    let attrs = attributes_of(attributes)?;
    Ok((attrs & FILE_ATTRIBUTE_HIDDEN) != 0)
}

/// Checks if the hidden and system attribute is set
pub fn is_super_hidden(attributes: &Result<u32, String>) -> (hidden: AreiaResult<bool>)
    ensures
        outcome(hidden) == match queried(answer_of(*attributes)) {
            Ok(bits) => Ok::<bool, AreiaErrorView>(has_super_hidden_bits(bits)),
            Err(error) => Err(error),
        },
{
    let attrs = attributes_of(attributes)?;
    Ok((attrs & FILE_ATTRIBUTE_HIDDEN) != 0 && (attrs & FILE_ATTRIBUTE_SYSTEM) != 0)
}

impl KnownFolders {
    /// The registry's answer for one folder.
    pub open spec fn answer(self, folder: FolderID) -> Result<FilePath, String> {
        match folder {
            FolderID::Profile => self.profile,
            FolderID::LocalAppData => self.local_app_data,
            FolderID::RoamingAppData => self.roaming_app_data,
            FolderID::Desktop => self.desktop,
            FolderID::Document => self.document,
            FolderID::Download => self.download,
            FolderID::Music => self.music,
            FolderID::Picture => self.picture,
            FolderID::Public => self.public,
            FolderID::Template => self.template,
            FolderID::Video => self.video,
        }
    }

    /// The path of a known folder: the registry's answer where it is an
    /// absolute path.
    pub open spec fn path(self, folder: FolderID) -> Result<FilePathView, AreiaErrorView> {
        match self.answer(folder) {
            Ok(path) => if path@.is_absolute() {
                Ok(path@)
            } else {
                Err(AreiaErrorView::PathMustBeAbsolute(path@))
            },
            Err(message) => Err(AreiaErrorView::WindowsError(message@)),
        }
    }
}

/// Returns the path to a known folder
///
/// # Arguments
/// * `folder` - The folder to get the path for - see `FolderID` enum
/// * `folders` - The answers of the registry
pub fn get_path(folder: FolderID, folders: &KnownFolders) -> (path: AreiaResult<FilePath>)
    ensures
        outcome(path) == folders.path(folder),
        path is Ok ==> path.unwrap()@.is_absolute() && path.unwrap()@.wf(),
{
    let answer = match folder {
        FolderID::Profile => &folders.profile,
        FolderID::LocalAppData => &folders.local_app_data,
        FolderID::RoamingAppData => &folders.roaming_app_data,
        FolderID::Desktop => &folders.desktop,
        FolderID::Document => &folders.document,
        FolderID::Download => &folders.download,
        FolderID::Music => &folders.music,
        FolderID::Picture => &folders.picture,
        FolderID::Public => &folders.public,
        FolderID::Template => &folders.template,
        FolderID::Video => &folders.video,
    };
    match answer {
        Ok(path) => {
            if path.is_absolute() {
                Ok(path.clone())
            } else {
                Err(AreiaError::PathMustBeAbsolute(path.clone()))
            }
        },
        Err(message) => Err(AreiaError::WindowsError(message.clone())),
    }
}

} // verus!

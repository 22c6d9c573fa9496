//! The errors of the library.

use crate::path::{FilePath, FilePathView};
use vstd::prelude::*;
use vstd::string::*;

verus! {

pub type AreiaResult<T> = Result<T, AreiaError>;

/// Everything that can go wrong.  A message comes from the operating
/// system by way of the caller who made the native call.
#[derive(Debug)]
pub enum AreiaError {
    /// A native answer that has to be an absolute path is not one.
    PathMustBeAbsolute(FilePath),
    /// The path is empty, or names nothing that could be hidden.
    PathMustBeSomething(FilePath),
    /// The entry would have to exist for its attributes to be changed.
    FileDoesNotExist(FilePath),
    /// No source gave a usable home directory.
    CantGetHomeDir,
    /// Visibility is not encoded in names on this platform.
    MakingHiddenPathNotSupported(String),
    /// The platform has no notion of super hidden entries.
    SuperHidingNotSupported(String),
    /// Super hiding applies to existing entries only.
    SuperHidingRequiresExistingPath(FilePath),
    /// Reading or writing failed.
    IoError(String),
    /// A Windows call failed.
    WindowsError(String),
    /// Querying an entry's attributes failed on Windows.
    WindowsIoError(String),
    WindowsErrorPathDoesNotExist(FilePath),
    /// A macOS call failed.
    MacError(String),
    /// The hidden entry lies inside a protected directory and stays hidden.
    HiddenFileInsideSystemDir(FilePath),
}

/// The mathematical value of an [`AreiaError`].
pub ghost enum AreiaErrorView {
    PathMustBeAbsolute(FilePathView),
    PathMustBeSomething(FilePathView),
    FileDoesNotExist(FilePathView),
    CantGetHomeDir,
    MakingHiddenPathNotSupported(Seq<char>),
    SuperHidingNotSupported(Seq<char>),
    SuperHidingRequiresExistingPath(FilePathView),
    IoError(Seq<char>),
    WindowsError(Seq<char>),
    WindowsIoError(Seq<char>),
    WindowsErrorPathDoesNotExist(FilePathView),
    MacError(Seq<char>),
    HiddenFileInsideSystemDir(FilePathView),
}

impl View for AreiaError {
    type V = AreiaErrorView;

    open spec fn view(&self) -> AreiaErrorView {
        match self {
            AreiaError::PathMustBeAbsolute(path) => AreiaErrorView::PathMustBeAbsolute(path@),
            AreiaError::PathMustBeSomething(path) => AreiaErrorView::PathMustBeSomething(path@),
            AreiaError::FileDoesNotExist(path) => AreiaErrorView::FileDoesNotExist(path@),
            AreiaError::CantGetHomeDir => AreiaErrorView::CantGetHomeDir,
            AreiaError::MakingHiddenPathNotSupported(reason) => {
                AreiaErrorView::MakingHiddenPathNotSupported(reason@)
            },
            AreiaError::SuperHidingNotSupported(reason) => {
                AreiaErrorView::SuperHidingNotSupported(reason@)
            },
            AreiaError::SuperHidingRequiresExistingPath(path) => {
                AreiaErrorView::SuperHidingRequiresExistingPath(path@)
            },
            AreiaError::IoError(message) => AreiaErrorView::IoError(message@),
            AreiaError::WindowsError(message) => AreiaErrorView::WindowsError(message@),
            AreiaError::WindowsIoError(message) => AreiaErrorView::WindowsIoError(message@),
            AreiaError::WindowsErrorPathDoesNotExist(path) => {
                AreiaErrorView::WindowsErrorPathDoesNotExist(path@)
            },
            AreiaError::MacError(message) => AreiaErrorView::MacError(message@),
            AreiaError::HiddenFileInsideSystemDir(path) => {
                AreiaErrorView::HiddenFileInsideSystemDir(path@)
            },
        }
    }
}

impl AreiaErrorView {
    /// The path that the error speaks of, if it speaks of one.
    pub open spec fn path(self) -> Option<FilePathView> {
        match self {
            AreiaErrorView::PathMustBeAbsolute(path) => Some(path),
            AreiaErrorView::PathMustBeSomething(path) => Some(path),
            AreiaErrorView::FileDoesNotExist(path) => Some(path),
            AreiaErrorView::SuperHidingRequiresExistingPath(path) => Some(path),
            AreiaErrorView::WindowsErrorPathDoesNotExist(path) => Some(path),
            AreiaErrorView::HiddenFileInsideSystemDir(path) => Some(path),
            _ => None,
        }
    }

    /// What went wrong, in words.  The path that an error speaks of is not
    /// part of them.
    pub open spec fn message(self) -> Seq<char> {
        match self {
            AreiaErrorView::PathMustBeAbsolute(_) => "Path must be absolute"@,
            AreiaErrorView::PathMustBeSomething(_) => "Path must be something"@,
            AreiaErrorView::FileDoesNotExist(_) => "File does not exist"@,
            AreiaErrorView::CantGetHomeDir => "Can't get home directory"@,
            AreiaErrorView::MakingHiddenPathNotSupported(reason) => {
                "Making hidden path not supported. Reason: "@ + reason
            },
            AreiaErrorView::SuperHidingNotSupported(reason) => {
                "Super hiding not supported. Reason: "@ + reason
            },
            AreiaErrorView::SuperHidingRequiresExistingPath(_) => {
                "Super hiding requires an existing path (either file or directory)"@
            },
            AreiaErrorView::IoError(message) => "IO error: "@ + message,
            AreiaErrorView::WindowsError(message) => "Windows error. \n Unable to get: "@ + message,
            AreiaErrorView::WindowsIoError(message) => "Windows IO error: "@ + message,
            AreiaErrorView::WindowsErrorPathDoesNotExist(_) => {
                "Windows Error: Path does not exist"@
            },
            AreiaErrorView::MacError(message) => "Mac error. \n Unable to get: "@ + message,
            AreiaErrorView::HiddenFileInsideSystemDir(_) => "Hidden file inside system directory"@,
        }
    }
}

impl AreiaError {
    /// The path that the error speaks of, if it speaks of one.
    pub fn path(&self) -> (path: Option<&FilePath>)
        ensures
            match path {
                Some(path) => self@.path() == Some(path@),
                None => self@.path() is None,
            },
    {
        match self {
            AreiaError::PathMustBeAbsolute(path) => Some(path),
            AreiaError::PathMustBeSomething(path) => Some(path),
            AreiaError::FileDoesNotExist(path) => Some(path),
            AreiaError::SuperHidingRequiresExistingPath(path) => Some(path),
            AreiaError::WindowsErrorPathDoesNotExist(path) => Some(path),
            AreiaError::HiddenFileInsideSystemDir(path) => Some(path),
            _ => None,
        }
    }

    /// What went wrong, in words.  The path that an error speaks of is not
    /// part of them: `path` tells it.
    pub fn message(&self) -> (message: String)
        ensures
            message@ == self@.message(),
    {
        match self {
            AreiaError::PathMustBeAbsolute(_) => "Path must be absolute".to_owned(),
            AreiaError::PathMustBeSomething(_) => "Path must be something".to_owned(),
            AreiaError::FileDoesNotExist(_) => "File does not exist".to_owned(),
            AreiaError::CantGetHomeDir => "Can't get home directory".to_owned(),
            AreiaError::MakingHiddenPathNotSupported(reason) => {
                "Making hidden path not supported. Reason: ".to_owned().concat(reason.as_str())
            },
            AreiaError::SuperHidingNotSupported(reason) => {
                "Super hiding not supported. Reason: ".to_owned().concat(reason.as_str())
            },
            AreiaError::SuperHidingRequiresExistingPath(_) => {
                "Super hiding requires an existing path (either file or directory)".to_owned()
            },
            AreiaError::IoError(err) => "IO error: ".to_owned().concat(err.as_str()),
            AreiaError::WindowsError(err) => {
                "Windows error. \n Unable to get: ".to_owned().concat(err.as_str())
            },
            AreiaError::WindowsIoError(err) => "Windows IO error: ".to_owned().concat(err.as_str()),
            AreiaError::WindowsErrorPathDoesNotExist(_) => {
                "Windows Error: Path does not exist".to_owned()
            },
            AreiaError::MacError(err) => {
                "Mac error. \n Unable to get: ".to_owned().concat(err.as_str())
            },
            AreiaError::HiddenFileInsideSystemDir(_) => {
                "Hidden file inside system directory".to_owned()
            },
        }
    }
}

/// The value of a result: that of what it holds.
pub open spec fn outcome<T: View>(result: AreiaResult<T>) -> Result<T::V, AreiaErrorView> {
    match result {
        Ok(value) => Ok(value@),
        Err(error) => Err(error@),
    }
}

} // verus!

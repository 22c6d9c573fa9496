//! What was observed of a filesystem entry, and what is to be done to one.

use crate::path::{FilePath, FilePathView};
use vstd::prelude::*;

verus! {

/// What an entry was found to be.
#[derive(Clone, Copy, Debug, PartialEq, Eq, Structural)]
pub enum EntryKind {
    Missing,
    File,
    Directory,
}

/// The observed state of the entry that a path points to.
#[derive(Debug)]
pub struct Entry {
    pub kind: EntryKind,
    /// The attribute bits of the entry, or the message of the native query
    /// that failed to read them.
    pub attributes: Result<u32, String>,
}

/// The mathematical value of an [`Entry`].
pub ghost struct EntryView {
    pub kind: EntryKind,
    pub attributes: Result<u32, Seq<char>>,
}

impl EntryView {
    pub open spec fn present(self) -> bool {
        !(self.kind is Missing)
    }
}

/// The value of an answer to the query for an entry's attribute bits.
pub open spec fn answer_of(attributes: Result<u32, String>) -> Result<u32, Seq<char>> {
    match attributes {
        Ok(bits) => Ok(bits),
        Err(message) => Err(message@),
    }
}

impl View for Entry {
    type V = EntryView;

    open spec fn view(&self) -> EntryView {
        EntryView { kind: self.kind, attributes: answer_of(self.attributes) }
    }
}

impl Entry {
    pub fn is_present(&self) -> (present: bool)
        ensures
            present == self@.present(),
    {
        match self.kind {
            EntryKind::Missing => false,
            _ => true,
        }
    }

    pub fn is_file(&self) -> (file: bool)
        ensures
            file == (self@.kind is File),
    {
        match self.kind {
            EntryKind::File => true,
            _ => false,
        }
    }
}

/// One change of the filesystem, for the caller to carry out.
#[derive(Debug, PartialEq)]
pub enum FsAction {
    /// Create the directory and every missing ancestor of it.
    CreateDirAll(FilePath),
    /// Create an empty file.
    CreateFile(FilePath),
    /// Move an entry to a new name in one step.
    Rename { from: FilePath, to: FilePath },
    /// Replace the attribute bits of an entry.
    SetAttributes { path: FilePath, bits: u32 },
    /// Remove a file.
    RemoveFile(FilePath),
    /// Remove a directory with everything in it.
    RemoveDirAll(FilePath),
}

/// The mathematical value of an [`FsAction`].
pub ghost enum FsActionView {
    CreateDirAll(FilePathView),
    CreateFile(FilePathView),
    Rename { from: FilePathView, to: FilePathView },
    SetAttributes { path: FilePathView, bits: u32 },
    RemoveFile(FilePathView),
    RemoveDirAll(FilePathView),
}

impl View for FsAction {
    type V = FsActionView;

    open spec fn view(&self) -> FsActionView {
        match self {
            FsAction::CreateDirAll(path) => FsActionView::CreateDirAll(path@),
            FsAction::CreateFile(path) => FsActionView::CreateFile(path@),
            FsAction::Rename { from, to } => FsActionView::Rename { from: from@, to: to@ },
            FsAction::SetAttributes { path, bits } => FsActionView::SetAttributes {
                path: path@,
                bits: *bits,
            },
            FsAction::RemoveFile(path) => FsActionView::RemoveFile(path@),
            FsAction::RemoveDirAll(path) => FsActionView::RemoveDirAll(path@),
        }
    }
}

/// The values of a list of actions, in order.
pub open spec fn actions_of(actions: Seq<FsAction>) -> Seq<FsActionView> {
    actions.map_values(|action: FsAction| action@)
}

/// The outcome of a change of visibility: the path that the entry has
/// afterwards and the actions that lead there.  Without actions the entry
/// was already in the state asked for.
#[derive(Debug)]
pub struct Transition {
    pub path: FilePath,
    pub actions: Vec<FsAction>,
}

/// The outcome of hiding or unhiding: a transition, or the error that
/// stood in its way.
pub type VisibilityResult = Result<Transition, crate::error::AreiaError>;

/// The mathematical value of a [`Transition`].
pub ghost struct TransitionView {
    pub path: FilePathView,
    pub actions: Seq<FsActionView>,
}

impl View for Transition {
    type V = TransitionView;

    open spec fn view(&self) -> TransitionView {
        TransitionView { path: self.path@, actions: actions_of(self.actions@) }
    }
}

/// The attribute bits that the last write among `actions` leaves, if any
/// of them writes attribute bits.
pub open spec fn written_bits(actions: Seq<FsActionView>) -> Option<u32>
    decreases actions.len(),
{
    if actions.len() == 0 {
        None
    } else {
        match actions.last() {
            FsActionView::SetAttributes { path, bits } => Some(bits),
            _ => written_bits(actions.drop_last()),
        }
    }
}

impl TransitionView {
    /// The transition that leaves `path` as it is.
    pub open spec fn stay(path: FilePathView) -> TransitionView {
        TransitionView { path, actions: Seq::<FsActionView>::empty() }
    }

    /// Whether `after` can be what is observed at the transition's path
    /// once its actions are carried out, where `before` was observed at
    /// `origin`.  Without actions nothing changes; with actions the entry
    /// is there, and has the attribute bits that were written last.
    pub open spec fn leaves(self, origin: FilePathView, before: EntryView, after: EntryView) -> bool {
        if self.actions.len() == 0 {
            self.path == origin ==> after == before
        } else {
            &&& after.present()
            &&& match written_bits(self.actions) {
                Some(bits) => after.attributes == Ok::<u32, Seq<char>>(bits),
                None => true,
            }
        }
    }
}

/// The value of a planned list of actions.
pub open spec fn plan_outcome(plan: Result<Vec<FsAction>, crate::error::AreiaError>) -> Result<
    Seq<FsActionView>,
    crate::error::AreiaErrorView,
> {
    match plan {
        Ok(actions) => Ok(actions_of(actions@)),
        Err(error) => Err(error@),
    }
}

/// One list of actions followed by another.
pub fn chain(first: Vec<FsAction>, second: Vec<FsAction>) -> (both: Vec<FsAction>)
    ensures
        actions_of(both@) == actions_of(first@) + actions_of(second@),
{
    let mut both = first;
    let mut rest = second;
    both.append(&mut rest);
    assert(actions_of(both@) =~= actions_of(first@) + actions_of(second@));
    both
}

/// The list of one action.
pub fn single(action: FsAction) -> (plan: Vec<FsAction>)
    ensures
        actions_of(plan@) == seq![action@],
{
    let mut plan: Vec<FsAction> = Vec::new();
    plan.push(action);
    assert(actions_of(plan@) =~= seq![action@]);
    plan
}

impl Transition {
    /// The transition that leaves `path` as it is.
    pub fn stay(path: FilePath) -> (transition: Transition)
        ensures
            transition@ == TransitionView::stay(path@),
    {
        let actions: Vec<FsAction> = Vec::new();
        assert(actions_of(actions@) =~= Seq::<FsActionView>::empty());
        Transition { path, actions }
    }
}

} // verus!

//! Hiding by name, as Linux and macOS do it: an entry is hidden when a
//! component of its path begins with a dot.

use crate::dirs::base::{resolvable, BaseDirs};
use crate::dirs::user::UserDirs;
use crate::error::{outcome, AreiaError, AreiaErrorView, AreiaResult};
use crate::fs::{single, Entry, EntryView, FsAction, FsActionView, Transition, TransitionView};
use crate::path::{
    is_cur_dir, lemma_normalize_valid, names_of, normalize, slash_free, valid_components,
    view_of, FilePath, FilePathView, DOT,
};
use crate::utils::platform::{found, is_found, Environment};
use crate::utils::{
    create_all_dir_with_file, creation_plan, inside_any, is_inside_any, system_dirs,
    system_dirs_spec,
};
use vstd::prelude::*;
use vstd::slice::slice_to_vec;

verus! {

/// Whether a path is present and absolute.
pub open spec fn usable(path: Option<FilePath>) -> bool {
    path is Some && path.unwrap()@.is_absolute()
}

/// The home directory of a session: the first of the variable, the user
/// database and the system framework that names an absolute path.
pub open spec fn home_of(
    variable: Option<FilePath>,
    user_database: Option<FilePath>,
    native: Option<FilePath>,
) -> Result<FilePathView, AreiaErrorView> {
    if usable(variable) {
        Ok(variable.unwrap()@)
    } else if usable(user_database) {
        Ok(user_database.unwrap()@)
    } else if usable(native) {
        Ok(native.unwrap()@)
    } else {
        Err(AreiaErrorView::CantGetHomeDir)
    }
}

/// Get the user's home directory
///
/// Works on MacOS, Linux; Linux has no system framework to ask and passes `None` for it
///
/// # Returns
/// `Ok(path)` if the home directory could be found
/// `Err(AreiaError::CantGetHomeDir)` if the home directory could not be found
pub fn get_home(
    variable: &Option<FilePath>,
    user_database: &Option<FilePath>,
    native: &Option<FilePath>,
) -> (home: AreiaResult<FilePath>)
    ensures
        outcome(home) == home_of(*variable, *user_database, *native),
        home is Ok ==> home.unwrap()@.is_absolute() && home.unwrap()@.wf(),
{
    if let Some(path) = absolute_copy(variable) {
        return Ok(path);
    } else {
        if let Some(path) = absolute_copy(user_database) {
            return Ok(path);
        }
        if let Some(path) = absolute_copy(native) {
            return Ok(path);
        }
        Err(AreiaError::CantGetHomeDir)
    }
}

/// A copy of the path where it is present and absolute.
pub fn absolute_copy(path: &Option<FilePath>) -> (copy: Option<FilePath>)
    ensures
        view_of(copy) == if usable(*path) {
            view_of(*path)
        } else {
            None
        },
        copy is Some ==> copy.unwrap()@.wf(),
{
    match path {
        Some(path) => is_absolute_path(path.clone()),
        None => None,
    }
}

/// Checks if supplied path is an absolute path
///
/// # Returns
/// `Some(path)` if the path is absolute
/// `None` if the path is not absolute
pub fn is_absolute_path(path: FilePath) -> (absolute: Option<FilePath>)
    ensures
        view_of(absolute) == if path@.is_absolute() {
            Some(path@)
        } else {
            None
        },
        absolute is Some ==> absolute.unwrap()@.wf(),
{
    if path.is_absolute() {
        Some(path)
    } else {
        None
    }
}

/// Checks if supplied path is among the directories that exist
///
/// # Returns
/// `Some(path)` if it is
/// `None` if it is not
pub fn is_existent_path(path: FilePath, existing: &Vec<FilePath>) -> (existent: Option<FilePath>)
    ensures
        view_of(existent) == if found(existing@, path@) {
            Some(path@)
        } else {
            None
        },
{
    if is_found(existing, &path) {
        Some(path)
    } else {
        None
    }
}

/// A name is hidden when it begins with a dot; `.` and `..` are no
/// exception.
pub open spec fn hidden_name(name: Seq<u8>) -> bool {
    name.len() > 0 && name[0] == DOT
}

/// Whether any component of the path is hidden.
pub open spec fn any_hidden(path: FilePathView) -> bool {
    exists|i: int| 0 <= i < path.components.len() && hidden_name(#[trigger] path.components[i])
}

/// The path with a dot before its last component; a path that is hidden
/// already, or has no component, is left as it is.
pub open spec fn hidden_path(path: FilePathView) -> FilePathView {
    if any_hidden(path) || path.components.len() == 0 {
        path
    } else {
        FilePathView {
            anchor: path.anchor,
            components: path.components.drop_last().push(seq![DOT] + path.components.last()),
        }
    }
}

/// The name without the dot that hides it.
pub open spec fn shown_name(name: Seq<u8>) -> Seq<u8> {
    if hidden_name(name) {
        name.skip(1)
    } else {
        name
    }
}

/// The path with one leading dot taken from every hidden component.  A
/// name that is left empty is no component any more.
pub open spec fn shown_path(path: FilePathView) -> FilePathView {
    FilePathView {
        anchor: path.anchor,
        components: normalize(
            path.anchor,
            path.components.map_values(|name: Seq<u8>| shown_name(name)),
        ),
    }
}

/// What hiding does to an entry by its name.
pub open spec fn hide_file_spec(path: FilePathView, entry: EntryView) -> Result<
    TransitionView,
    AreiaErrorView,
> {
    if any_hidden(path) {
        Ok(TransitionView::stay(path))
    } else if path.components.len() == 0 {
        Err(AreiaErrorView::PathMustBeSomething(path))
    } else if entry.present() {
        Ok(
            TransitionView {
                path: hidden_path(path),
                actions: seq![FsActionView::Rename { from: path, to: hidden_path(path) }],
            },
        )
    } else {
        Ok(TransitionView { path: hidden_path(path), actions: creation_plan(hidden_path(path)) })
    }
}

/// What unhiding does to an entry by its name, given the protected
/// directories.
pub open spec fn unhide_file_spec(
    path: FilePathView,
    entry: EntryView,
    protected: Seq<FilePathView>,
) -> Result<TransitionView, AreiaErrorView> {
    if !any_hidden(path) {
        Ok(TransitionView::stay(path))
    } else if inside_any(path, protected) {
        Err(AreiaErrorView::HiddenFileInsideSystemDir(path))
    } else if entry.present() {
        Ok(
            TransitionView {
                path: shown_path(path),
                actions: seq![FsActionView::Rename { from: path, to: shown_path(path) }],
            },
        )
    } else {
        Ok(TransitionView::stay(shown_path(path)))
    }
}

/// What unhiding does to an entry by its name in a session.  The
/// directories of the session are resolved only for a hidden path.
pub open spec fn unhide_spec(path: FilePathView, entry: EntryView, env: Environment) -> Result<
    TransitionView,
    AreiaErrorView,
> {
    if any_hidden(path) {
        match system_dirs_spec(env) {
            Ok(protected) => unhide_file_spec(path, entry, protected),
            Err(error) => Err(error),
        }
    } else {
        Ok(TransitionView::stay(path))
    }
}

/// only handles unix dotfiles
pub fn is_component_hidden(name: &Vec<u8>) -> (hidden: bool)
    ensures
        hidden == hidden_name(name@),
{
    name.len() > 0 && name[0] == DOT
}

pub fn is_any_component_hidden(path: &FilePath) -> (hidden: AreiaResult<bool>)
    ensures
        hidden == Ok::<bool, AreiaError>(any_hidden(path@)),
{
    let count = path.len();
    let mut i: usize = 0;
    while i < count
        invariant
            i <= count,
            count == path@.components.len(),
            forall|k: int| 0 <= k < i ==> !hidden_name(#[trigger] path@.components[k]),
        decreases count - i,
    {
        if is_component_hidden(path.component(i)) {
            return Ok(true);
        }
        i += 1;
    }
    Ok(false)
}

/// Takes in a path, and returns a new path where the last component is hidden.
/// Returns the path unmodified if a component is already hidden, or if there is no component
pub fn make_hidden_path(path: &FilePath) -> (hidden: FilePath)
    ensures
        hidden@ == hidden_path(path@),
        hidden@.wf(),
{
    let already = match is_any_component_hidden(path) {
        Ok(hidden) => hidden,
        Err(_) => false,
    };
    if already || path.len() == 0 {
        path.clone()
    } else {
        let mut names = path.to_names();
        let ghost before = names_of(names@);
        let last = names.pop().unwrap();
        let mut name: Vec<u8> = Vec::new();
        name.push(DOT);
        let mut k: usize = 0;
        while k < last.len()
            invariant
                k <= last.len(),
                name@ == seq![DOT] + last@.take(k as int),
            decreases last.len() - k,
        {
            name.push(last[k]);
            assert(last@.take(k + 1) =~= last@.take(k as int).push(last@[k as int]));
            assert(name@ =~= seq![DOT] + last@.take(k + 1));
            k += 1;
        }
        assert(last@.take(k as int) =~= last@);
        let ghost kept = names_of(names@);
        names.push(name);
        let anchor = path.anchor();
        proof {
            assert(kept =~= before.drop_last());
            assert(last@ == before.last());
            let after = names_of(names@);
            assert(after =~= before.drop_last().push(seq![DOT] + before.last()));
            assert forall|i: int| 0 <= i < after.len() implies {
                &&& (#[trigger] after[i]).len() > 0
                &&& slash_free(after[i])
                &&& (is_cur_dir(after[i]) ==> anchor is Relative && i == 0)
            } by {
                if i < after.len() - 1 {
                    assert(after[i] == before[i]);
                } else {
                    assert(after[i] == seq![DOT] + before.last());
                    assert(before.last() == before[before.len() - 1]);
                    assert(slash_free(before[before.len() - 1]));
                }
            }
            lemma_normalize_valid(anchor, after);
            assert forall|i: int| 0 <= i < names@.len() implies slash_free(
                #[trigger] names@[i]@,
            ) by {
                assert(after[i] == names@[i]@);
            }
        }
        FilePath::from_names(anchor, &names)
    }
}

/// First checks if any component is hidden.
/// If yes -> returns the path and does nothing
/// If no -> plans the move of the last component to its hidden name, or, where the
/// entry does not exist yet, an empty file under the hidden name, and returns the new path
pub fn hide_file(path: &FilePath, entry: &Entry) -> (result: AreiaResult<Transition>)
    ensures
        outcome(result) == hide_file_spec(path@, entry@),
{
    let already = match is_any_component_hidden(path) {
        Ok(hidden) => hidden,
        Err(_) => false,
    };
    if already {
        return Ok(Transition::stay(path.clone()));
    }
    if path.len() == 0 {
        return Err(AreiaError::PathMustBeSomething(path.clone()));
    }
    let new_path = make_hidden_path(path);
    let actions = if entry.is_present() {
        single(atomic_move(path, &new_path))
    } else {
        create_all_dir_with_file(&new_path)
    };
    Ok(Transition { path: new_path, actions })
}

/// Takes in a path, and returns a new path where no component has the dot that hid it:
/// one leading dot is taken from every hidden component.
pub fn make_unhidden_path(path: &FilePath) -> (shown: FilePath)
    ensures
        shown@ == shown_path(path@),
        shown@.wf(),
{
    let old_names = path.to_names();
    let ghost old = names_of(old_names@);
    let mut new_components: Vec<Vec<u8>> = Vec::new();
    let mut i: usize = 0;
    assert(names_of(new_components@) =~= old.take(0).map_values(
        |name: Seq<u8>| shown_name(name),
    ));
    while i < old_names.len()
        invariant
            i <= old_names.len(),
            old == names_of(old_names@),
            valid_components(path@.anchor, old),
            names_of(new_components@) == old.take(i as int).map_values(
                |name: Seq<u8>| shown_name(name),
            ),
            forall|k: int|
                0 <= k < new_components@.len() ==> slash_free(#[trigger] new_components@[k]@),
        decreases old_names.len() - i,
    {
        let component = &old_names[i];
        assert(old[i as int] == component@);
        let ghost before = new_components@;
        let unhidden_component = if is_component_hidden(component) {
            let mut shown: Vec<u8> = Vec::new();
            let mut k: usize = 1;
            assert(shown@ =~= component@.subrange(1, 1));
            while k < component.len()
                invariant
                    1 <= k <= component.len(),
                    shown@ == component@.subrange(1, k as int),
                decreases component.len() - k,
            {
                shown.push(component[k]);
                assert(shown@ =~= component@.subrange(1, k + 1));
                k += 1;
            }
            assert(component@.subrange(1, k as int) =~= component@.skip(1));
            shown
        } else {
            slice_to_vec(component.as_slice())
        };
        assert(unhidden_component@ == shown_name(component@));
        new_components.push(unhidden_component);
        proof {
            assert(new_components@ == before.push(unhidden_component));
            assert(names_of(new_components@) =~= names_of(before).push(unhidden_component@));
            assert(old.take(i + 1) =~= old.take(i as int).push(component@));
            assert(old.take(i + 1).map_values(|name: Seq<u8>| shown_name(name)) =~= old.take(
                i as int,
            ).map_values(|name: Seq<u8>| shown_name(name)).push(shown_name(component@)));
        }
        i += 1;
    }
    assert(old.take(i as int) =~= old);
    FilePath::from_names(path.anchor(), &new_components)
}

/// First checks if path points inside a hidden system folder.
/// If yes, returns an Error
/// If no, takes the leading dot from every hidden component, plans the move
/// of an existing entry to the new name and returns the new path
pub fn unhide_file(path: &FilePath, entry: &Entry, env: &Environment) -> (result: AreiaResult<
    Transition,
>)
    requires
        any_hidden(path@) ==> resolvable(*env),
    ensures
        outcome(result) == unhide_spec(path@, entry@, *env),
{
    let hidden = match is_any_component_hidden(path) {
        Ok(hidden) => hidden,
        Err(_) => false,
    };
    if !hidden {
        return Ok(Transition::stay(path.clone()));
    }
    // check if the path lies in a system directory
    // - On mac:
    //     - there are no hidden system directories
    // - On linux:
    //     - Of all `BaseDir` only runtime and home is not hidden
    //     - Of all `UserDir` only font is hidden

    let base_dirs = BaseDirs::new(env)?;
    let user_dirs = UserDirs::new(env)?;
    let system_dirs = system_dirs(&base_dirs, &user_dirs);
    if is_inside_any(path, &system_dirs) {
        return Err(AreiaError::HiddenFileInsideSystemDir(path.clone()));
    }
    // remove the leading dot of every hidden component, reconstruct the path

    let new_path = make_unhidden_path(path);
    if entry.is_present() {
        let actions = single(atomic_move(path, &new_path));
        Ok(Transition { path: new_path, actions })
    } else {
        Ok(Transition::stay(new_path))
    }
}

/// The move of an entry to a new name in one step.
fn atomic_move(from: &FilePath, to: &FilePath) -> (action: FsAction)
    ensures
        action@ == (FsActionView::Rename { from: from@, to: to@ }),
{
    FsAction::Rename { from: from.clone(), to: to.clone() }
}

} // verus!

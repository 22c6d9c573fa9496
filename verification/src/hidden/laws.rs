//! What holds of hiding and unhiding, whatever the path and the session.

use crate::dirs::base::base_dirs_spec;
use crate::dirs::user::user_dirs_spec;
use crate::error::AreiaErrorView;
use crate::fs::{written_bits, EntryView, TransitionView};
use crate::hidden::{hide_outcome, is_hidden_outcome, unhide_outcome};
use crate::path::{lemma_normalize_valid, FilePathView, DOT};
use crate::utils::ffi::windows::{has_hidden_bit, hidden_bits, queried};
use crate::utils::platform::{Environment, Platform};
use crate::utils::unix::{any_hidden, hidden_name, hidden_path, shown_name, shown_path};
use crate::utils::{hidden_now, inside_any, protected_dirs, system_dirs_spec};
use vstd::prelude::*;

verus! {

/// The hidden bit is set in the bits that hiding writes.
pub proof fn lemma_hidden_bits_are_hidden(bits: u32)
    ensures
        has_hidden_bit(hidden_bits(bits)),
{
    assert(((bits | 0x02u32) & !0x80u32) & 0x02u32 != 0) by (bit_vector);
}

/// A path that was given a hidden name has a hidden component.
pub proof fn lemma_hidden_path_is_hidden(path: FilePathView)
    requires
        path.components.len() > 0,
    ensures
        any_hidden(hidden_path(path)),
{
    if !any_hidden(path) {
        let hidden = hidden_path(path);
        let last = hidden.components.len() - 1;
        assert(hidden.components[last] == seq![DOT] + path.components.last());
        assert(hidden_name(hidden.components[last]));
    }
}

/// What was hidden is hidden: the path that hiding led to, in the state
/// that hiding left, counts as hidden.
pub proof fn lemma_hidden_after_hide(
    path: FilePathView,
    entry: EntryView,
    platform: Platform,
    after: EntryView,
)
    requires
        hide_outcome(path, entry, platform) is Ok,
        hide_outcome(path, entry, platform)->Ok_0.leaves(path, entry, after),
    ensures
        is_hidden_outcome(hide_outcome(path, entry, platform)->Ok_0.path, after, platform) == Ok::<
            bool,
            AreiaErrorView,
        >(true),
{
    let first = hide_outcome(path, entry, platform)->Ok_0;
    if hidden_now(path, entry, platform) {
        assert(first == TransitionView::stay(path));
    } else if platform is Windows {
        let bits = queried(entry.attributes)->Ok_0;
        lemma_hidden_bits_are_hidden(bits);
        assert(first.actions.len() == 1);
        assert(first.actions.drop_last().len() == 0);
        assert(written_bits(first.actions) == Some(hidden_bits(bits)));
    } else {
        lemma_hidden_path_is_hidden(path);
        assert(first.path == hidden_path(path));
        assert(first.path.components.len() > 0);
    }
}

/// Hiding is idempotent: hiding the path that hiding led to, in the state
/// that hiding left, leads to the same path and asks for no action.
pub proof fn lemma_hide_is_idempotent(
    path: FilePathView,
    entry: EntryView,
    platform: Platform,
    after: EntryView,
)
    requires
        hide_outcome(path, entry, platform) is Ok,
        hide_outcome(path, entry, platform)->Ok_0.leaves(path, entry, after),
    ensures
        hide_outcome(hide_outcome(path, entry, platform)->Ok_0.path, after, platform) == Ok::<
            TransitionView,
            AreiaErrorView,
        >(TransitionView::stay(hide_outcome(path, entry, platform)->Ok_0.path)),
{
    lemma_hidden_after_hide(path, entry, platform, after);
}

/// A path lies inside a directory exactly if its parent does or the path
/// is the directory.
pub proof fn lemma_starts_with_parent(path: FilePathView, dir: FilePathView)
    requires
        path.components.len() > 0,
        path.starts_with(dir),
    ensures
        path.parent()->Some_0.starts_with(dir) || path == dir,
{
    let parent = path.parent()->Some_0;
    let count = dir.components.len() as int;
    if count < path.components.len() {
        assert(parent.components.take(count) =~= path.components.take(count));
    } else {
        assert(path.components.take(count) =~= path.components);
    }
}

/// Unhiding reverses hiding: where a visible entry was hidden, and neither
/// the directory that holds it lies inside a protected directory nor the
/// hidden entry is a protected directory itself, unhiding the path that
/// hiding led to, in the state that hiding left, leads back to the path.
pub proof fn lemma_unhide_reverses_hide(
    path: FilePathView,
    entry: EntryView,
    env: Environment,
    after: EntryView,
)
    requires
        path.wf(),
        !hidden_now(path, entry, env.platform_of()),
        hide_outcome(path, entry, env.platform_of()) is Ok,
        hide_outcome(path, entry, env.platform_of())->Ok_0.leaves(path, entry, after),
        system_dirs_spec(env) is Ok,
        path.parent() is Some ==> !inside_any(path.parent()->Some_0, system_dirs_spec(env)->Ok_0),
        forall|i: int|
            0 <= i < system_dirs_spec(env)->Ok_0.len() ==> hide_outcome(
                path,
                entry,
                env.platform_of(),
            )->Ok_0.path != #[trigger] system_dirs_spec(env)->Ok_0[i],
    ensures
        unhide_outcome(hide_outcome(path, entry, env.platform_of())->Ok_0.path, after, env) is Ok,
        unhide_outcome(
            hide_outcome(path, entry, env.platform_of())->Ok_0.path,
            after,
            env,
        )->Ok_0.path == path,
{
    let platform = env.platform_of();
    let hidden = hide_outcome(path, entry, platform)->Ok_0;
    let protected = system_dirs_spec(env)->Ok_0;
    assert(hidden.path.anchor == path.anchor);
    assert(!inside_any(hidden.path, protected)) by {
        if inside_any(hidden.path, protected) {
            let i = choose|i: int|
                0 <= i < protected.len() && hidden.path.starts_with(#[trigger] protected[i]);
            if hidden.path.components.len() > 0 {
                lemma_starts_with_parent(hidden.path, protected[i]);
                if platform is Windows {
                    assert(hidden.path == path);
                } else {
                    assert(hidden.path.components.drop_last() =~= path.components.drop_last());
                    assert(hidden.path.parent() == path.parent());
                }
                assert(path.parent()->Some_0.starts_with(protected[i]));
            } else {
                assert(hidden.path.components.take(0) =~= hidden.path.components);
                assert(protected[i].components =~= hidden.path.components);
                assert(hidden.path == protected[i]);
            }
        }
    }
    if platform is Windows {
        let bits = queried(entry.attributes)->Ok_0;
        lemma_hidden_bits_are_hidden(bits);
        assert(hidden.actions.len() == 1);
        assert(hidden.actions.drop_last().len() == 0);
        assert(written_bits(hidden.actions) == Some(hidden_bits(bits)));
    } else {
        lemma_hidden_path_is_hidden(path);
        let names = hidden.path.components.map_values(|name: Seq<u8>| shown_name(name));
        assert(names =~= path.components) by {
            assert forall|k: int| 0 <= k < names.len() implies names[k] == path.components[k] by {
                if k < names.len() - 1 {
                    assert(hidden.path.components[k] == path.components[k]);
                    assert(!hidden_name(path.components[k]));
                } else {
                    assert(hidden.path.components[k] == seq![DOT] + path.components.last());
                    assert((seq![DOT] + path.components.last()).skip(1) =~= path.components.last());
                }
            }
        }
        lemma_normalize_valid(path.anchor, path.components);
        assert(shown_path(hidden.path) == path);
    }
}

/// Every protected directory of a session is an absolute path.
pub proof fn lemma_protected_dirs_are_absolute(env: Environment)
    requires
        system_dirs_spec(env) is Ok,
    ensures
        forall|i: int|
            0 <= i < system_dirs_spec(env)->Ok_0.len() ==> (#[trigger] system_dirs_spec(
                env,
            )->Ok_0[i]).is_absolute(),
{
    let base = base_dirs_spec(env)->Ok_0;
    let user = user_dirs_spec(env)->Ok_0;
    assert(system_dirs_spec(env)->Ok_0 == protected_dirs(base, user));
}

/// The guard of unhiding: a hidden entry inside a protected directory
/// stays hidden.  Unhiding it fails with the error for that, and so asks
/// for no action at all.
pub proof fn lemma_protected_entries_stay_hidden(
    path: FilePathView,
    entry: EntryView,
    env: Environment,
    within: FilePathView,
    i: int,
)
    requires
        system_dirs_spec(env) is Ok,
        0 <= i < system_dirs_spec(env)->Ok_0.len(),
        within.starts_with(system_dirs_spec(env)->Ok_0[i]),
        path.starts_with(within),
        hidden_now(path, entry, env.platform_of()),
    ensures
        unhide_outcome(path, entry, env) == Err::<TransitionView, AreiaErrorView>(
            AreiaErrorView::HiddenFileInsideSystemDir(path),
        ),
{
    let protected = system_dirs_spec(env)->Ok_0;
    let dir = protected[i];
    lemma_protected_dirs_are_absolute(env);
    assert(dir.is_absolute());
    let count = dir.components.len() as int;
    assert(path.components.take(count) =~= within.components.take(count)) by {
        assert(path.components.take(within.components.len() as int) == within.components);
        assert forall|k: int| 0 <= k < count implies path.components.take(count)[k]
            == within.components.take(count)[k] by {
            assert(path.components.take(within.components.len() as int)[k]
                == within.components[k]);
        }
    }
    assert(path.starts_with(dir));
    assert(inside_any(path, protected));
    assert(!path.is_empty());
}

} // verus!

//! Paths as an anchor and a list of named components.

use crate::utils::platform::Platform;
use vstd::prelude::*;
use vstd::slice::slice_to_vec;
use vstd::std_specs::cmp::PartialEqSpecImpl;

verus! {

pub const SLASH: u8 = 47;

pub const BACKSLASH: u8 = 92;

pub const DOT: u8 = 46;

pub const COLON: u8 = 58;

/// What a path starts from.
#[derive(Clone, Copy, Debug, PartialEq, Eq, Structural)]
pub enum Anchor {
    /// Nothing: the path is relative.
    Relative,
    /// The root directory, `/`.
    Root,
    /// The root of the current Windows drive, a single leading separator.
    CurrentDrive,
    /// A Windows drive letter followed by a separator, as in `C:\`.
    Drive(u8),
    /// A Windows network location, two leading separators.
    Network,
}

/// The mathematical value of a [`FilePath`].
pub ghost struct FilePathView {
    pub anchor: Anchor,
    pub components: Seq<Seq<u8>>,
}

pub open spec fn is_separator(platform: Platform, byte: u8) -> bool {
    byte == SLASH || (platform is Windows && byte == BACKSLASH)
}

pub open spec fn is_drive_letter(byte: u8) -> bool {
    (65 <= byte <= 90) || (97 <= byte <= 122)
}

/// The name `.`, which stands for the directory it is found in.
pub open spec fn is_cur_dir(name: Seq<u8>) -> bool {
    name.len() == 1 && name[0] == DOT
}

/// The anchor that a path's text begins with.
pub open spec fn anchor_of(platform: Platform, text: Seq<u8>) -> Anchor {
    if platform is Windows {
        if text.len() >= 2 && is_separator(platform, text[0]) && is_separator(platform, text[1]) {
            Anchor::Network
        } else if text.len() >= 1 && is_separator(platform, text[0]) {
            Anchor::CurrentDrive
        } else if text.len() >= 3 && is_drive_letter(text[0]) && text[1] == COLON && is_separator(
            platform,
            text[2],
        ) {
            Anchor::Drive(text[0])
        } else {
            Anchor::Relative
        }
    } else {
        if text.len() >= 1 && text[0] == SLASH {
            Anchor::Root
        } else {
            Anchor::Relative
        }
    }
}

/// The part of a path's text that holds its components: all of it, but for
/// the two bytes of a drive prefix.
pub open spec fn body_of(platform: Platform, text: Seq<u8>) -> Seq<u8> {
    if anchor_of(platform, text) is Drive {
        text.skip(2)
    } else {
        text
    }
}

/// The runs of bytes between separators, empty runs included.  A text
/// without separators is one run.
pub open spec fn pieces(platform: Platform, text: Seq<u8>) -> Seq<Seq<u8>>
    decreases text.len(),
{
    if text.len() == 0 {
        seq![Seq::<u8>::empty()]
    } else {
        let before = pieces(platform, text.drop_last());
        if is_separator(platform, text.last()) {
            before.push(Seq::<u8>::empty())
        } else {
            before.drop_last().push(before.last().push(text.last()))
        }
    }
}

/// Whether a name is kept behind the names `kept` under `anchor`: an empty
/// name never is, and `.` only where it leads a relative path.
pub open spec fn keeps(anchor: Anchor, kept: Seq<Seq<u8>>, name: Seq<u8>) -> bool {
    name.len() > 0 && (is_cur_dir(name) ==> anchor is Relative && kept.len() == 0)
}

/// `kept`, followed by `name` where it counts as a component.
pub open spec fn normalize_step(anchor: Anchor, kept: Seq<Seq<u8>>, name: Seq<u8>) -> Seq<
    Seq<u8>,
> {
    if keeps(anchor, kept, name) {
        kept.push(name)
    } else {
        kept
    }
}

/// The names that count as components, in order.
pub open spec fn normalize(anchor: Anchor, names: Seq<Seq<u8>>) -> Seq<Seq<u8>>
    decreases names.len(),
{
    if names.len() == 0 {
        Seq::<Seq<u8>>::empty()
    } else {
        normalize_step(anchor, normalize(anchor, names.drop_last()), names.last())
    }
}

/// The path that a text denotes on a platform.
pub open spec fn parse(platform: Platform, text: Seq<u8>) -> FilePathView {
    let anchor = anchor_of(platform, text);
    FilePathView {
        anchor,
        components: normalize(anchor, pieces(platform, body_of(platform, text))),
    }
}

/// The text that an anchor is written as.
pub open spec fn anchor_text(anchor: Anchor) -> Seq<u8> {
    match anchor {
        Anchor::Relative => Seq::<u8>::empty(),
        Anchor::Root => seq![SLASH],
        Anchor::CurrentDrive => seq![BACKSLASH],
        Anchor::Drive(letter) => seq![letter, COLON, BACKSLASH],
        Anchor::Network => seq![BACKSLASH, BACKSLASH],
    }
}

/// The separator that is written between the components behind an anchor.
pub open spec fn separator_of(anchor: Anchor) -> u8 {
    match anchor {
        Anchor::Relative | Anchor::Root => SLASH,
        _ => BACKSLASH,
    }
}

/// The names in order, with `separator` between neighbours.
pub open spec fn joined(names: Seq<Seq<u8>>, separator: u8) -> Seq<u8>
    decreases names.len(),
{
    if names.len() == 0 {
        Seq::<u8>::empty()
    } else if names.len() == 1 {
        names[0]
    } else {
        joined(names.drop_last(), separator).push(separator) + names.last()
    }
}

/// The byte sequences that a vector of names holds.
pub open spec fn names_of(names: Seq<Vec<u8>>) -> Seq<Seq<u8>> {
    names.map_values(|name: Vec<u8>| name@)
}

/// Whether no byte of `name` is a slash.
pub open spec fn slash_free(name: Seq<u8>) -> bool {
    forall|i: int| 0 <= i < name.len() ==> name[i] != SLASH
}

/// Whether `names` can be the components of a path under `anchor`: each is
/// a non-empty name without a slash, and `.` occurs only as the first
/// component of a relative path.
pub open spec fn valid_components(anchor: Anchor, names: Seq<Seq<u8>>) -> bool {
    forall|i: int|
        0 <= i < names.len() ==> {
            &&& (#[trigger] names[i]).len() > 0
            &&& slash_free(names[i])
            &&& (is_cur_dir(names[i]) ==> anchor is Relative && i == 0)
        }
}

impl FilePathView {
    /// The invariant of every path: its components are valid under its anchor.
    pub open spec fn wf(self) -> bool {
        valid_components(self.anchor, self.components)
    }

    pub open spec fn is_absolute(self) -> bool {
        self.anchor is Root || self.anchor is Drive || self.anchor is Network
    }

    /// The empty path: no anchor and no component.
    pub open spec fn is_empty(self) -> bool {
        self.anchor is Relative && self.components.len() == 0
    }

    /// Whether `base` is this path or one of its ancestors, component by
    /// component.
    pub open spec fn starts_with(self, base: FilePathView) -> bool {
        &&& self.anchor == base.anchor
        &&& base.components.len() <= self.components.len()
        &&& self.components.take(base.components.len() as int) == base.components
    }

    /// This path extended by `other`; an anchored `other` replaces it.
    pub open spec fn join(self, other: FilePathView) -> FilePathView {
        if other.anchor is Relative {
            FilePathView {
                anchor: self.anchor,
                components: normalize(self.anchor, self.components + other.components),
            }
        } else {
            other
        }
    }

    /// The last component, if there is one.
    pub open spec fn file_name(self) -> Option<Seq<u8>> {
        if self.components.len() == 0 {
            None
        } else {
            Some(self.components.last())
        }
    }

    /// The text of the path: its anchor, then its components with the
    /// anchor's separator between them.
    pub open spec fn render(self) -> Seq<u8> {
        anchor_text(self.anchor) + joined(self.components, separator_of(self.anchor))
    }

    /// The path without its last component, if it has one.
    pub open spec fn parent(self) -> Option<FilePathView> {
        if self.components.len() == 0 {
            None
        } else {
            Some(FilePathView { anchor: self.anchor, components: self.components.drop_last() })
        }
    }
}

/// A filesystem path: an anchor followed by named components.
#[derive(Debug)]
pub struct FilePath {
    anchor: Anchor,
    components: Vec<Vec<u8>>,
}

impl View for FilePath {
    type V = FilePathView;

    closed spec fn view(&self) -> FilePathView {
        FilePathView { anchor: self.anchor, components: names_of(self.components@) }
    }
}

/// Valid components are already in normal form.
pub proof fn lemma_normalize_valid(anchor: Anchor, names: Seq<Seq<u8>>)
    requires
        valid_components(anchor, names),
    ensures
        normalize(anchor, names) == names,
    decreases names.len(),
{
    if names.len() > 0 {
        let init = names.drop_last();
        assert forall|i: int| 0 <= i < init.len() implies {
            &&& (#[trigger] init[i]).len() > 0
            &&& slash_free(init[i])
            &&& (is_cur_dir(init[i]) ==> anchor is Relative && i == 0)
        } by {
            assert(init[i] == names[i]);
        }
        lemma_normalize_valid(anchor, init);
        assert(names.last() == names[names.len() - 1]);
        assert(init.push(names.last()) =~= names);
    } else {
        assert(names =~= Seq::<Seq<u8>>::empty());
    }
}

/// A text without a slash is one piece.
pub proof fn lemma_pieces_of_name(platform: Platform, name: Seq<u8>)
    requires
        !(platform is Windows),
        slash_free(name),
    ensures
        pieces(platform, name) == seq![name],
    decreases name.len(),
{
    if name.len() > 0 {
        assert forall|i: int| 0 <= i < name.drop_last().len() implies name.drop_last()[i]
            != SLASH by {
            assert(name.drop_last()[i] == name[i]);
        }
        lemma_pieces_of_name(platform, name.drop_last());
        assert(name[name.len() - 1] != SLASH);
        assert(name.drop_last().push(name.last()) =~= name);
        assert(seq![name.drop_last()].drop_last().push(name) =~= seq![name]);
    } else {
        assert(name =~= Seq::<u8>::empty());
    }
}

/// A name behind a slash is one more piece.
pub proof fn lemma_pieces_behind_slash(platform: Platform, text: Seq<u8>, name: Seq<u8>)
    requires
        !(platform is Windows),
        slash_free(name),
    ensures
        pieces(platform, text.push(SLASH) + name) == pieces(platform, text).push(name),
    decreases name.len(),
{
    let whole = text.push(SLASH) + name;
    if name.len() == 0 {
        assert(whole =~= text.push(SLASH));
        assert(whole.drop_last() =~= text);
        assert(name =~= Seq::<u8>::empty());
    } else {
        let init = name.drop_last();
        assert forall|i: int| 0 <= i < init.len() implies init[i] != SLASH by {
            assert(init[i] == name[i]);
        }
        lemma_pieces_behind_slash(platform, text, init);
        assert(whole.drop_last() =~= text.push(SLASH) + init);
        assert(whole.last() == name[name.len() - 1]);
        let before = pieces(platform, text).push(init);
        assert(before.drop_last() =~= pieces(platform, text));
        assert(init.push(name.last()) =~= name);
    }
}

/// The pieces of names that are joined behind a text are the pieces of the
/// text and the names.
pub proof fn lemma_pieces_of_joined(platform: Platform, text: Seq<u8>, names: Seq<Seq<u8>>)
    requires
        !(platform is Windows),
        names.len() > 0,
        forall|i: int| 0 <= i < names.len() ==> slash_free(#[trigger] names[i]),
    ensures
        pieces(platform, text.push(SLASH) + joined(names, SLASH)) == pieces(platform, text)
            + names,
    decreases names.len(),
{
    if names.len() == 1 {
        lemma_pieces_behind_slash(platform, text, names[0]);
        assert(pieces(platform, text).push(names[0]) =~= pieces(platform, text) + names);
    } else {
        let init = names.drop_last();
        assert forall|i: int| 0 <= i < init.len() implies slash_free(#[trigger] init[i]) by {
            assert(init[i] == names[i]);
        }
        lemma_pieces_of_joined(platform, text, init);
        let so_far = text.push(SLASH) + joined(init, SLASH);
        assert(slash_free(names[names.len() - 1]));
        lemma_pieces_behind_slash(platform, so_far, names.last());
        assert(text.push(SLASH) + joined(names, SLASH) =~= so_far.push(SLASH) + names.last());
        assert((pieces(platform, text) + init).push(names.last()) =~= pieces(platform, text)
            + names);
    }
}

/// Joined names are their own pieces.
pub proof fn lemma_pieces_of_names(platform: Platform, names: Seq<Seq<u8>>)
    requires
        !(platform is Windows),
        names.len() > 0,
        forall|i: int| 0 <= i < names.len() ==> slash_free(#[trigger] names[i]),
    ensures
        pieces(platform, joined(names, SLASH)) == names,
    decreases names.len(),
{
    if names.len() == 1 {
        lemma_pieces_of_name(platform, names[0]);
        assert(seq![names[0]] =~= names);
    } else {
        let init = names.drop_last();
        assert forall|i: int| 0 <= i < init.len() implies slash_free(#[trigger] init[i]) by {
            assert(init[i] == names[i]);
        }
        lemma_pieces_of_names(platform, init);
        assert(slash_free(names[names.len() - 1]));
        lemma_pieces_behind_slash(platform, joined(init, SLASH), names.last());
        assert(init.push(names.last()) =~= names);
    }
}

/// An empty name in front changes nothing about the names that count.
pub proof fn lemma_normalize_skips_empty(anchor: Anchor, names: Seq<Seq<u8>>)
    ensures
        normalize(anchor, seq![Seq::<u8>::empty()] + names) == normalize(anchor, names),
    decreases names.len(),
{
    let front = seq![Seq::<u8>::empty()];
    if names.len() == 0 {
        reveal_with_fuel(normalize, 2);
        assert(front + names =~= front);
        assert(front.drop_last() =~= Seq::<Seq<u8>>::empty());
    } else {
        lemma_normalize_skips_empty(anchor, names.drop_last());
        assert((front + names).drop_last() =~= front + names.drop_last());
        assert((front + names).last() == names.last());
    }
}

/// Joined names begin with the first byte of the first name.
pub proof fn lemma_joined_begins(names: Seq<Seq<u8>>, separator: u8)
    requires
        names.len() > 0,
        names[0].len() > 0,
    ensures
        joined(names, separator).len() > 0,
        joined(names, separator)[0] == names[0][0],
    decreases names.len(),
{
    if names.len() > 1 {
        lemma_joined_begins(names.drop_last(), separator);
    }
}

/// Reading what was written gives the path back: on Linux and macOS the
/// text of a well-formed path that is relative or begins at the root
/// denotes that path.
pub proof fn lemma_parse_render(platform: Platform, path: FilePathView)
    requires
        !(platform is Windows),
        path.wf(),
        path.anchor is Relative || path.anchor is Root,
    ensures
        parse(platform, path.render()) == path,
{
    reveal_with_fuel(normalize, 3);
    let names = path.components;
    let text = path.render();
    let body = joined(names, SLASH);
    assert forall|i: int| 0 <= i < names.len() implies slash_free(#[trigger] names[i]) by {}
    if path.anchor is Root {
        assert(text =~= seq![SLASH] + body);
        assert(text[0] == SLASH);
        assert(anchor_of(platform, text) == Anchor::Root);
        let empty = Seq::<u8>::empty();
        assert(seq![SLASH] =~= empty.push(SLASH));
        if names.len() > 0 {
            lemma_pieces_of_joined(platform, empty, names);
            assert(text =~= empty.push(SLASH) + body);
            assert(pieces(platform, empty) =~= seq![empty]);
            lemma_normalize_skips_empty(Anchor::Root, names);
            lemma_normalize_valid(Anchor::Root, names);
        } else {
            assert(text =~= empty.push(SLASH));
            assert(text.drop_last() =~= empty);
            let all = pieces(platform, text);
            reveal_with_fuel(pieces, 2);
            assert(text.last() == SLASH);
            assert(pieces(platform, empty) =~= seq![empty]);
            assert(all =~= seq![empty, empty]);
            assert(all.drop_last() =~= seq![empty]);
            assert(all.drop_last().drop_last() =~= Seq::<Seq<u8>>::empty());
            assert(normalize(Anchor::Root, all) =~= names);
        }
    } else {
        assert(text =~= body);
        if names.len() > 0 {
            assert(names[0].len() > 0);
            lemma_joined_begins(names, SLASH);
            assert(slash_free(names[0]));
            assert(text[0] != SLASH);
            lemma_pieces_of_names(platform, names);
            lemma_normalize_valid(Anchor::Relative, names);
        } else {
            let empty = Seq::<u8>::empty();
            let all = pieces(platform, text);
            assert(all =~= seq![empty]);
            assert(all.drop_last() =~= Seq::<Seq<u8>>::empty());
            assert(normalize(Anchor::Relative, all) =~= names);
        }
    }
}

/// Whether two byte strings are the same.
pub fn bytes_eq(left: &[u8], right: &[u8]) -> (same: bool)
    ensures
        same == (left@ == right@),
{
    if left.len() != right.len() {
        return false;
    }
    let mut i: usize = 0;
    while i < left.len()
        invariant
            i <= left.len(),
            left.len() == right.len(),
            forall|k: int| 0 <= k < i ==> left@[k] == right@[k],
        decreases left.len() - i,
    {
        if left[i] != right[i] {
            return false;
        }
        i += 1;
    }
    assert(left@ =~= right@);
    true
}

/// Copies the first `count` names.
fn copy_names(names: &Vec<Vec<u8>>, count: usize) -> (copy: Vec<Vec<u8>>)
    requires
        count <= names@.len(),
    ensures
        names_of(copy@) == names_of(names@).take(count as int),
{
    let mut copy: Vec<Vec<u8>> = Vec::new();
    let mut i: usize = 0;
    assert(names_of(copy@) =~= names_of(names@).take(0));
    while i < count
        invariant
            i <= count <= names@.len(),
            names_of(copy@) == names_of(names@).take(i as int),
        decreases count - i,
    {
        let ghost before = copy@;
        let name = slice_to_vec(names[i].as_slice());
        copy.push(name);
        proof {
            assert(copy@ == before.push(name));
            assert(names_of(copy@) =~= names_of(before).push(name@));
            assert(names_of(names@)[i as int] == name@);
            assert(names_of(names@).take(i + 1) =~= names_of(names@).take(i as int).push(name@));
        }
        i += 1;
    }
    copy
}

/// Appends `name` to `kept` where it counts as a component there.
fn push_kept(anchor: Anchor, kept: &mut Vec<Vec<u8>>, name: Vec<u8>)
    requires
        valid_components(anchor, names_of(old(kept)@)),
        slash_free(name@),
    ensures
        names_of(final(kept)@) == normalize_step(anchor, names_of(old(kept)@), name@),
        valid_components(anchor, names_of(final(kept)@)),
{
    let leads = match anchor {
        Anchor::Relative => kept.len() == 0,
        _ => false,
    };
    let cur_dir = name.len() == 1 && name[0] == DOT;
    let ghost before = names_of(kept@);
    if name.len() > 0 && (!cur_dir || leads) {
        kept.push(name);
        assert(names_of(kept@) =~= before.push(name@));
    }
}

fn is_separator_byte(platform: Platform, byte: u8) -> (sep: bool)
    ensures
        sep == is_separator(platform, byte),
{
    byte == SLASH || (match platform {
        Platform::Windows => byte == BACKSLASH,
        _ => false,
    })
}

fn is_drive_letter_byte(byte: u8) -> (letter: bool)
    ensures
        letter == is_drive_letter(byte),
{
    (65 <= byte && byte <= 90) || (97 <= byte && byte <= 122)
}

fn anchor_of_text(platform: Platform, text: &[u8]) -> (anchor: Anchor)
    ensures
        anchor == anchor_of(platform, text@),
{
    match platform {
        Platform::Windows => {
            if text.len() >= 2 && is_separator_byte(platform, text[0]) && is_separator_byte(
                platform,
                text[1],
            ) {
                Anchor::Network
            } else if text.len() >= 1 && is_separator_byte(platform, text[0]) {
                Anchor::CurrentDrive
            } else if text.len() >= 3 && is_drive_letter_byte(text[0]) && text[1] == COLON
                && is_separator_byte(platform, text[2]) {
                Anchor::Drive(text[0])
            } else {
                Anchor::Relative
            }
        },
        _ => {
            if text.len() >= 1 && text[0] == SLASH {
                Anchor::Root
            } else {
                Anchor::Relative
            }
        },
    }
}

impl FilePath {
    #[verifier::type_invariant]
    spec fn well_formed(self) -> bool {
        self@.wf()
    }

    /// Reads a path from its text in the syntax of `platform`.
    pub fn from_bytes(platform: Platform, text: &[u8]) -> (path: FilePath)
        ensures
            path@ == parse(platform, text@),
            path@.wf(),
    {
        let anchor = anchor_of_text(platform, text);
        let start: usize = match anchor {
            Anchor::Drive(_) => 2,
            _ => 0,
        };
        let ghost body = body_of(platform, text@);
        let mut components: Vec<Vec<u8>> = Vec::new();
        let mut current: Vec<u8> = Vec::new();
        let mut i: usize = start;
        assert(body.take(0) =~= Seq::<u8>::empty());
        assert(pieces(platform, body.take(0)).drop_last() =~= Seq::<Seq<u8>>::empty());
        assert(names_of(components@) =~= Seq::<Seq<u8>>::empty());
        while i < text.len()
            invariant
                start <= i <= text.len(),
                body.len() == text.len() - start,
                forall|k: int| 0 <= k < body.len() ==> body[k] == text@[k + start],
                names_of(components@) == normalize(
                    anchor,
                    pieces(platform, body.take(i - start)).drop_last(),
                ),
                current@ == pieces(platform, body.take(i - start)).last(),
                pieces(platform, body.take(i - start)).len() > 0,
                slash_free(current@),
                valid_components(anchor, names_of(components@)),
            decreases text.len() - i,
        {
            let byte = text[i];
            let ghost seen = body.take(i - start);
            let ghost next = body.take(i + 1 - start);
            proof {
                assert(next.drop_last() =~= seen);
                assert(next.last() == byte);
                let before = pieces(platform, seen);
                if is_separator(platform, byte) {
                    assert(pieces(platform, next) == before.push(Seq::<u8>::empty()));
                    assert(pieces(platform, next).drop_last() =~= before);
                    assert(before.drop_last().push(before.last()) =~= before);
                } else {
                    assert(pieces(platform, next).drop_last() =~= before.drop_last());
                }
            }
            if is_separator_byte(platform, byte) {
                push_kept(anchor, &mut components, current);
                current = Vec::new();
            } else {
                current.push(byte);
            }
            i += 1;
        }
        proof {
            assert(body.take(i - start) =~= body);
            let all = pieces(platform, body);
            assert(all.drop_last().push(all.last()) =~= all);
        }
        push_kept(anchor, &mut components, current);
        FilePath { anchor, components }
    }

    /// The empty path.
    pub fn empty() -> (path: FilePath)
        ensures
            path@.is_empty(),
            path@.wf(),
    {
        let components: Vec<Vec<u8>> = Vec::new();
        assert(names_of(components@) =~= Seq::<Seq<u8>>::empty());
        FilePath { anchor: Anchor::Relative, components }
    }

    /// Builds a path from an anchor and names, of which those are kept that
    /// count as components.
    pub(crate) fn from_names(anchor: Anchor, names: &Vec<Vec<u8>>) -> (path: FilePath)
        requires
            forall|i: int| 0 <= i < names@.len() ==> slash_free(#[trigger] names@[i]@),
        ensures
            path@ == (FilePathView { anchor, components: normalize(anchor, names_of(names@)) }),
            path@.wf(),
    {
        let mut components: Vec<Vec<u8>> = Vec::new();
        let mut i: usize = 0;
        let ghost all = names_of(names@);
        assert(names_of(components@) =~= Seq::<Seq<u8>>::empty());
        assert(all.take(0) =~= Seq::<Seq<u8>>::empty());
        while i < names.len()
            invariant
                i <= names.len(),
                all == names_of(names@),
                forall|k: int| 0 <= k < names@.len() ==> slash_free(#[trigger] names@[k]@),
                names_of(components@) == normalize(anchor, all.take(i as int)),
                valid_components(anchor, names_of(components@)),
            decreases names.len() - i,
        {
            let name = slice_to_vec(names[i].as_slice());
            proof {
                let next = all.take(i + 1);
                assert(next.drop_last() =~= all.take(i as int));
                assert(next.last() == name@);
            }
            push_kept(anchor, &mut components, name);
            i += 1;
        }
        assert(all.take(i as int) =~= all);
        FilePath { anchor, components }
    }

    /// The text of the path.
    pub fn to_bytes(&self) -> (text: Vec<u8>)
        ensures
            text@ == self@.render(),
    {
        let mut text: Vec<u8> = Vec::new();
        let separator = match self.anchor {
            Anchor::Relative => SLASH,
            Anchor::Root => {
                text.push(SLASH);
                SLASH
            },
            Anchor::CurrentDrive => {
                text.push(BACKSLASH);
                BACKSLASH
            },
            Anchor::Drive(letter) => {
                text.push(letter);
                text.push(COLON);
                text.push(BACKSLASH);
                BACKSLASH
            },
            Anchor::Network => {
                text.push(BACKSLASH);
                text.push(BACKSLASH);
                BACKSLASH
            },
        };
        let ghost names = names_of(self.components@);
        assert(text@ =~= anchor_text(self.anchor));
        assert(names.take(0) =~= Seq::<Seq<u8>>::empty());
        assert(text@ =~= anchor_text(self.anchor) + joined(names.take(0), separator));
        let mut i: usize = 0;
        while i < self.components.len()
            invariant
                i <= self.components.len(),
                names == names_of(self.components@),
                separator == separator_of(self.anchor),
                text@ == anchor_text(self.anchor) + joined(names.take(i as int), separator),
            decreases self.components.len() - i,
        {
            let ghost before = text@;
            if i > 0 {
                text.push(separator);
            }
            let name = &self.components[i];
            let ghost started = text@;
            let mut k: usize = 0;
            while k < name.len()
                invariant
                    k <= name.len(),
                    text@ == started + name@.take(k as int),
                decreases name.len() - k,
            {
                text.push(name[k]);
                assert(name@.take(k + 1) =~= name@.take(k as int).push(name@[k as int]));
                k += 1;
            }
            proof {
                assert(name@.take(k as int) =~= name@);
                let next = names.take(i + 1);
                assert(next.last() == name@);
                assert(next.drop_last() =~= names.take(i as int));
                if i == 0 {
                    assert(next.len() == 1);
                    assert(joined(names.take(0), separator) =~= Seq::<u8>::empty());
                    assert(next[0] == name@);
                    assert(text@ =~= anchor_text(self.anchor) + joined(next, separator));
                } else {
                    assert(next.len() > 1);
                    assert(text@ =~= anchor_text(self.anchor) + joined(next, separator));
                }
            }
            i += 1;
        }
        assert(names.take(i as int) =~= names);
        text
    }

    pub fn anchor(&self) -> (anchor: Anchor)
        ensures
            anchor == self@.anchor,
            self@.wf(),
    {
        proof {
            use_type_invariant(self);
        }
        self.anchor
    }

    pub fn is_empty(&self) -> (empty: bool)
        ensures
            empty == self@.is_empty(),
    {
        let relative = match self.anchor {
            Anchor::Relative => true,
            _ => false,
        };
        relative && self.components.len() == 0
    }

    pub fn is_absolute(&self) -> (absolute: bool)
        ensures
            absolute == self@.is_absolute(),
            self@.wf(),
    {
        proof {
            use_type_invariant(self);
        }
        match self.anchor {
            Anchor::Root => true,
            Anchor::Drive(_) => true,
            Anchor::Network => true,
            _ => false,
        }
    }

    /// The number of components.
    pub fn len(&self) -> (count: usize)
        ensures
            count == self@.components.len(),
            self@.wf(),
    {
        proof {
            use_type_invariant(self);
        }
        self.components.len()
    }

    /// The component at `index`.
    pub fn component(&self, index: usize) -> (name: &Vec<u8>)
        requires
            index < self@.components.len(),
        ensures
            name@ == self@.components[index as int],
            name@.len() > 0,
            slash_free(name@),
    {
        proof {
            use_type_invariant(self);
            assert(names_of(self.components@)[index as int] == self.components@[index as int]@);
        }
        &self.components[index]
    }

    /// A copy of the components, in order.
    pub fn to_names(&self) -> (names: Vec<Vec<u8>>)
        ensures
            names_of(names@) == self@.components,
            valid_components(self@.anchor, self@.components),
    {
        proof {
            use_type_invariant(self);
        }
        let names = copy_names(&self.components, self.components.len());
        assert(self@.components.take(self@.components.len() as int) =~= self@.components);
        names
    }

    /// The last component, if there is one.
    pub fn file_name(&self) -> (name: Option<Vec<u8>>)
        ensures
            name.is_some() == self@.file_name().is_some(),
            name.is_some() ==> name.unwrap()@ == self@.file_name().unwrap(),
    {
        let count = self.components.len();
        if count == 0 {
            None
        } else {
            Some(slice_to_vec(self.components[count - 1].as_slice()))
        }
    }

    /// The path without its last component, if it has one.
    pub fn parent(&self) -> (parent: Option<FilePath>)
        ensures
            parent.is_some() == self@.parent().is_some(),
            parent.is_some() ==> parent.unwrap()@ == self@.parent().unwrap(),
            parent.is_some() ==> parent.unwrap()@.wf(),
    {
        proof {
            use_type_invariant(self);
        }
        let count = self.components.len();
        if count == 0 {
            None
        } else {
            let components = copy_names(&self.components, count - 1);
            let ghost names = names_of(self.components@);
            assert(names.take(count - 1) =~= names.drop_last());
            assert(valid_components(self.anchor, names.drop_last())) by {
                assert forall|k: int| 0 <= k < names.drop_last().len() implies {
                    &&& (#[trigger] names.drop_last()[k]).len() > 0
                    &&& slash_free(names.drop_last()[k])
                    &&& (is_cur_dir(names.drop_last()[k]) ==> self.anchor is Relative && k == 0)
                } by {
                    assert(names.drop_last()[k] == names[k]);
                }
            }
            Some(FilePath { anchor: self.anchor, components })
        }
    }

    /// Whether `base` is this path or one of its ancestors.
    pub fn starts_with(&self, base: &FilePath) -> (within: bool)
        ensures
            within == self@.starts_with(base@),
    {
        if self.anchor != base.anchor {
            return false;
        }
        let count = base.components.len();
        if count > self.components.len() {
            return false;
        }
        let ghost mine = names_of(self.components@);
        let ghost theirs = names_of(base.components@);
        let mut i: usize = 0;
        while i < count
            invariant
                i <= count,
                count == base.components.len(),
                count <= self.components.len(),
                mine == names_of(self.components@),
                theirs == names_of(base.components@),
                forall|k: int| 0 <= k < i ==> mine[k] == theirs[k],
            decreases count - i,
        {
            if !bytes_eq(self.components[i].as_slice(), base.components[i].as_slice()) {
                assert(mine.take(count as int)[i as int] == mine[i as int]);
                return false;
            }
            i += 1;
        }
        assert(mine.take(count as int) =~= theirs);
        true
    }

    /// This path extended by `other`; an anchored `other` replaces it.
    pub fn join(&self, other: &FilePath) -> (path: FilePath)
        ensures
            path@ == self@.join(other@),
            path@.wf(),
    {
        proof {
            use_type_invariant(self);
            use_type_invariant(other);
        }
        let relative = match other.anchor {
            Anchor::Relative => true,
            _ => false,
        };
        let ghost mine = names_of(self.components@);
        let ghost theirs = names_of(other.components@);
        if relative {
            let mut components = copy_names(&self.components, self.components.len());
            proof {
                assert(mine.take(mine.len() as int) =~= mine);
                lemma_normalize_valid(self.anchor, mine);
                assert(mine + theirs.take(0) =~= mine);
            }
            let mut k: usize = 0;
            while k < other.components.len()
                invariant
                    k <= other.components.len(),
                    mine == names_of(self.components@),
                    theirs == names_of(other.components@),
                    valid_components(other.anchor, theirs),
                    names_of(components@) == normalize(self.anchor, mine + theirs.take(k as int)),
                    valid_components(self.anchor, names_of(components@)),
                decreases other.components.len() - k,
            {
                let name = slice_to_vec(other.components[k].as_slice());
                proof {
                    let next = mine + theirs.take(k + 1);
                    assert(next.drop_last() =~= mine + theirs.take(k as int));
                    assert(next.last() == name@);
                    assert(theirs[k as int] == name@);
                }
                push_kept(self.anchor, &mut components, name);
                k += 1;
            }
            assert(theirs.take(k as int) =~= theirs);
            FilePath { anchor: self.anchor, components }
        } else {
            other.clone()
        }
    }
}

impl Clone for FilePath {
    fn clone(&self) -> (copy: FilePath)
        ensures
            copy@ == self@,
            copy@.wf(),
    {
        proof {
            use_type_invariant(self);
        }
        let components = copy_names(&self.components, self.components.len());
        let ghost names = names_of(self.components@);
        assert(names.take(names.len() as int) =~= names);
        FilePath { anchor: self.anchor, components }
    }
}

impl PartialEq for FilePath {
    fn eq(&self, other: &FilePath) -> (same: bool) {
        let same = self.components.len() == other.components.len() && self.starts_with(other);
        proof {
            let mine = self@.components;
            assert(mine.take(mine.len() as int) =~= mine);
        }
        same
    }
}

impl PartialEqSpecImpl for FilePath {
    open spec fn obeys_eq_spec() -> bool {
        true
    }

    open spec fn eq_spec(&self, other: &FilePath) -> bool {
        self@ == other@
    }
}

/// The value of a path that may be absent.
pub open spec fn view_of(path: Option<FilePath>) -> Option<FilePathView> {
    match path {
        Some(path) => Some(path@),
        None => None,
    }
}

/// Whether a path that may be absent is absolute where it is present.
pub open spec fn absolute_if_present(path: Option<FilePathView>) -> bool {
    path is Some ==> path.unwrap().is_absolute() && path.unwrap().wf()
}

} // verus!

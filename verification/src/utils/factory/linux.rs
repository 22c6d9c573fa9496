//! The directories of a Linux session: a variable where it names an
//! absolute path, else a fixed place below the home directory.

use crate::error::{outcome, AreiaError, AreiaErrorView, AreiaResult};
use crate::path::{
    absolute_if_present, bytes_eq, parse, view_of, FilePath, FilePathView, BACKSLASH, SLASH,
};
use crate::utils::factory::{below, child, UsrDirs, UsrDirsView};
use crate::utils::platform::{found, LinuxEnv, Platform};
use crate::utils::unix::{absolute_copy, is_existent_path, usable};
use vstd::pervasive::unreached;
use vstd::prelude::*;
use vstd::slice::slice_to_vec;
use vstd::string::*;

verus! {

/// The directory that a variable names, else `text` below `home`.
pub open spec fn xdg(variable: Option<FilePath>, home: FilePathView, text: &str) -> FilePathView {
    if usable(variable) {
        variable.unwrap()@
    } else {
        below(home, text)
    }
}

/// Whether a directory can be told: its variable names an absolute path,
/// or `text` below `home` exists.
pub open spec fn xdg_found(
    variable: Option<FilePath>,
    home: FilePathView,
    text: &str,
    existing: Seq<FilePath>,
) -> bool {
    usable(variable) || found(existing, below(home, text))
}

/// The directory that a variable names, else `text` below `home`, which
/// then has to exist.
fn xdg_dir(variable: &Option<FilePath>, home: &FilePath, text: &str, existing: &Vec<FilePath>) -> (dir:
    FilePath)
    requires
        xdg_found(*variable, home@, text, existing@),
    ensures
        dir@ == xdg(*variable, home@, text),
        dir@.wf(),
        home@.is_absolute() ==> dir@.is_absolute(),
{
    if let Some(path) = absolute_copy(variable) {
        path
    } else {
        if let Some(path) = is_existent_path(child(home, text), existing) {
            path
        } else {
            unreached()
        }
    }
}

pub fn cache_dir(home: FilePath, env: &LinuxEnv) -> (dir: FilePath)
    requires
        xdg_found(env.cache_home, home@, ".cache", env.existing@),
    ensures
        dir@ == xdg(env.cache_home, home@, ".cache"),
        dir@.wf(),
        home@.is_absolute() ==> dir@.is_absolute(),
{
    xdg_dir(&env.cache_home, &home, ".cache", &env.existing)
}

pub fn config_dir(home: FilePath, env: &LinuxEnv) -> (dir: FilePath)
    requires
        xdg_found(env.config_home, home@, ".config", env.existing@),
    ensures
        dir@ == xdg(env.config_home, home@, ".config"),
        dir@.wf(),
        home@.is_absolute() ==> dir@.is_absolute(),
{
    xdg_dir(&env.config_home, &home, ".config", &env.existing)
}

pub fn config_local_dir(home: FilePath, env: &LinuxEnv) -> (dir: FilePath)
    requires
        xdg_found(env.config_home, home@, ".config", env.existing@),
    ensures
        dir@ == xdg(env.config_home, home@, ".config"),
        dir@.wf(),
        home@.is_absolute() ==> dir@.is_absolute(),
{
    config_dir(home, env)
}

pub fn data_local_dir(home: FilePath, env: &LinuxEnv) -> (dir: FilePath)
    requires
        xdg_found(env.data_home, home@, ".local/share", env.existing@),
    ensures
        dir@ == xdg(env.data_home, home@, ".local/share"),
        dir@.wf(),
        home@.is_absolute() ==> dir@.is_absolute(),
{
    data_dir(home, env)
}

pub fn preference_dir(home: FilePath, env: &LinuxEnv) -> (dir: FilePath)
    requires
        xdg_found(env.config_home, home@, ".config", env.existing@),
    ensures
        dir@ == xdg(env.config_home, home@, ".config"),
        dir@.wf(),
        home@.is_absolute() ==> dir@.is_absolute(),
{
    config_dir(home, env)
}

pub fn data_dir(home: FilePath, env: &LinuxEnv) -> (dir: FilePath)
    requires
        xdg_found(env.data_home, home@, ".local/share", env.existing@),
    ensures
        dir@ == xdg(env.data_home, home@, ".local/share"),
        dir@.wf(),
        home@.is_absolute() ==> dir@.is_absolute(),
{
    xdg_dir(&env.data_home, &home, ".local/share", &env.existing)
}

/// The runtime directory: what its variable names, where that is an
/// absolute path.
pub open spec fn runtime_dir_spec(env: LinuxEnv) -> Option<FilePathView> {
    if usable(env.runtime_dir) {
        view_of(env.runtime_dir)
    } else {
        None
    }
}

pub fn runtime_dir(env: &LinuxEnv) -> (dir: Option<FilePath>)
    ensures
        view_of(dir) == runtime_dir_spec(*env),
        dir is Some ==> dir.unwrap()@.wf(),
{
    absolute_copy(&env.runtime_dir)
}

pub fn state_dir(home: FilePath, env: &LinuxEnv) -> (dir: Option<FilePath>)
    requires
        xdg_found(env.state_home, home@, ".local/state", env.existing@),
    ensures
        view_of(dir) == Some(xdg(env.state_home, home@, ".local/state")),
        dir.unwrap()@.wf(),
        home@.is_absolute() ==> dir.unwrap()@.is_absolute(),
{
    Some(xdg_dir(&env.state_home, &home, ".local/state", &env.existing))
}

pub fn executable_dir(home: FilePath, env: &LinuxEnv) -> (dir: Option<FilePath>)
    requires
        xdg_found(env.bin_home, home@, ".local/bin", env.existing@),
    ensures
        view_of(dir) == Some(xdg(env.bin_home, home@, ".local/bin")),
        dir.unwrap()@.wf(),
        home@.is_absolute() ==> dir.unwrap()@.is_absolute(),
{
    Some(xdg_dir(&env.bin_home, &home, ".local/bin", &env.existing))
}

/// The font directory, where it exists.
pub open spec fn font_dir_spec(home: FilePathView, env: LinuxEnv) -> Option<FilePathView> {
    if found(env.existing@, below(home, ".local/share/fonts")) {
        Some(below(home, ".local/share/fonts"))
    } else {
        None
    }
}

pub fn font_dir(home: FilePath, env: &LinuxEnv) -> (dir: Option<FilePath>)
    ensures
        view_of(dir) == font_dir_spec(home@, *env),
        dir is Some ==> dir.unwrap()@.wf(),
{
    is_existent_path(child(&home, ".local/share/fonts"), &env.existing)
}

/// The directories whose existence a Linux session has to be asked for.
pub fn conventional_dirs(home: &FilePath) -> (dirs: Vec<FilePath>)
    ensures
        dirs@.len() == 6,
        dirs@[0]@ == below(home@, ".cache"),
        dirs@[1]@ == below(home@, ".config"),
        dirs@[2]@ == below(home@, ".local/share"),
        dirs@[3]@ == below(home@, ".local/state"),
        dirs@[4]@ == below(home@, ".local/bin"),
        dirs@[5]@ == below(home@, ".local/share/fonts"),
{
    let mut dirs: Vec<FilePath> = Vec::new();
    dirs.push(child(home, ".cache"));
    dirs.push(child(home, ".config"));
    dirs.push(child(home, ".local/share"));
    dirs.push(child(home, ".local/state"));
    dirs.push(child(home, ".local/bin"));
    dirs.push(child(home, ".local/share/fonts"));
    dirs
}

pub const LINE_FEED: u8 = 10;

pub const EQUALS: u8 = 61;

pub const QUOTE: u8 = 34;

/// The categories of content that the user-dirs file can place.
#[derive(Clone, Copy, Debug, PartialEq, Eq, Structural)]
pub enum XdgCategory {
    Desktop,
    Documents,
    Download,
    Music,
    Pictures,
    PublicShare,
    Templates,
    Videos,
}

/// What the user-dirs file says of one category.
#[derive(Debug)]
pub enum UserDirEntry {
    /// No line places the category.
    Unset,
    /// The category points at the home directory: it is not in use.
    Disabled,
    /// The directory of the category.
    Location(FilePath),
}

/// What the user-dirs file says, category by category.
#[derive(Debug)]
pub struct UserDirEntries {
    pub desktop: UserDirEntry,
    pub documents: UserDirEntry,
    pub download: UserDirEntry,
    pub music: UserDirEntry,
    pub pictures: UserDirEntry,
    pub public_share: UserDirEntry,
    pub templates: UserDirEntry,
    pub videos: UserDirEntry,
}

/// What a line says of a category: `None` disables it, a path places it.
pub type Placement = Option<FilePathView>;

impl UserDirEntries {
    pub open spec fn entry(self, category: XdgCategory) -> UserDirEntry {
        match category {
            XdgCategory::Desktop => self.desktop,
            XdgCategory::Documents => self.documents,
            XdgCategory::Download => self.download,
            XdgCategory::Music => self.music,
            XdgCategory::Pictures => self.pictures,
            XdgCategory::PublicShare => self.public_share,
            XdgCategory::Templates => self.templates,
            XdgCategory::Videos => self.videos,
        }
    }

    /// Every category that is placed has a well-formed absolute path.
    pub open spec fn all_absolute(self) -> bool {
        forall|category: XdgCategory|
            match #[trigger] self.entry(category) {
                UserDirEntry::Location(path) => path@.is_absolute() && path@.wf(),
                _ => true,
            }
    }

    /// No category is mentioned.
    pub fn new() -> (entries: UserDirEntries)
        ensures
            entries@ == Map::<XdgCategory, Placement>::empty(),
            entries.all_absolute(),
    {
        let entries = UserDirEntries {
            desktop: UserDirEntry::Unset,
            documents: UserDirEntry::Unset,
            download: UserDirEntry::Unset,
            music: UserDirEntry::Unset,
            pictures: UserDirEntry::Unset,
            public_share: UserDirEntry::Unset,
            templates: UserDirEntry::Unset,
            videos: UserDirEntry::Unset,
        };
        assert(entries@ =~= Map::<XdgCategory, Placement>::empty());
        entries
    }

    /// Records what a line says of a category, in place of what an earlier
    /// line said.
    pub fn set(&mut self, category: XdgCategory, placement: Option<FilePath>)
        ensures
            final(self)@ == old(self)@.insert(category, view_of(placement)),
            old(self).all_absolute() && absolute_if_present(view_of(placement)) ==> final(self).all_absolute(),
    {
        let entry = match placement {
            Some(path) => UserDirEntry::Location(path),
            None => UserDirEntry::Disabled,
        };
        match category {
            XdgCategory::Desktop => {
                self.desktop = entry;
            },
            XdgCategory::Documents => {
                self.documents = entry;
            },
            XdgCategory::Download => {
                self.download = entry;
            },
            XdgCategory::Music => {
                self.music = entry;
            },
            XdgCategory::Pictures => {
                self.pictures = entry;
            },
            XdgCategory::PublicShare => {
                self.public_share = entry;
            },
            XdgCategory::Templates => {
                self.templates = entry;
            },
            XdgCategory::Videos => {
                self.videos = entry;
            },
        }
        proof {
            assert forall|other: XdgCategory| other != category implies self.entry(other) == old(self).entry(other) by {}
            assert(self.entry(category) == entry);
            assert(self@ =~= old(self)@.insert(category, view_of(placement)));
            if old(self).all_absolute() && absolute_if_present(view_of(placement)) {
                assert forall|other: XdgCategory|
                    match #[trigger] self.entry(other) {
                        UserDirEntry::Location(path) => path@.is_absolute() && path@.wf(),
                        _ => true,
                    } by {
                    if other != category {
                        assert(self.entry(other) == old(self).entry(other));
                    }
                }
            }
        }
    }

    /// The directory of a category, where the file places it.
    pub fn location(&self, category: XdgCategory) -> (dir: Option<FilePath>)
        ensures
            view_of(dir) == placed(self@, category),
            self.all_absolute() ==> absolute_if_present(view_of(dir)),
    {
        let entry = match category {
            XdgCategory::Desktop => &self.desktop,
            XdgCategory::Documents => &self.documents,
            XdgCategory::Download => &self.download,
            XdgCategory::Music => &self.music,
            XdgCategory::Pictures => &self.pictures,
            XdgCategory::PublicShare => &self.public_share,
            XdgCategory::Templates => &self.templates,
            XdgCategory::Videos => &self.videos,
        };
        assert(*entry == self.entry(category));
        match entry {
            UserDirEntry::Location(path) => Some(path.clone()),
            _ => None,
        }
    }
}

impl View for UserDirEntries {
    type V = Map<XdgCategory, Placement>;

    /// The categories that the file mentions, each with its placement.
    open spec fn view(&self) -> Map<XdgCategory, Placement> {
        Map::new(
            |category: XdgCategory| !(self.entry(category) is Unset),
            |category: XdgCategory|
                match self.entry(category) {
                    UserDirEntry::Location(path) => Some(path@),
                    _ => None,
                },
        )
    }
}

/// The directory of a category: the path that it is placed at, if it is
/// mentioned and not disabled.
pub open spec fn placed(entries: Map<XdgCategory, Placement>, category: XdgCategory) -> Option<
    FilePathView,
> {
    if entries.contains_key(category) {
        entries[category]
    } else {
        None
    }
}

/// The lines of a text: the runs of bytes between line feeds.
pub open spec fn lines_of(text: Seq<u8>) -> Seq<Seq<u8>>
    decreases text.len(),
{
    if text.len() == 0 {
        seq![Seq::<u8>::empty()]
    } else {
        let before = lines_of(text.drop_last());
        if text.last() == LINE_FEED {
            before.push(Seq::<u8>::empty())
        } else {
            before.drop_last().push(before.last().push(text.last()))
        }
    }
}

/// Whether `at` is the place of the first `byte` in `line`.
pub open spec fn is_first(line: Seq<u8>, byte: u8, at: int) -> bool {
    &&& 0 <= at < line.len()
    &&& line[at] == byte
    &&& forall|k: int| 0 <= k < at ==> line[k] != byte
}

/// What stands before and behind the first `byte` of `line`, if there is
/// one.
pub open spec fn split_once_spec(line: Seq<u8>, byte: u8) -> Option<(Seq<u8>, Seq<u8>)> {
    if exists|at: int| is_first(line, byte, at) {
        let at = choose|at: int| is_first(line, byte, at);
        Some((line.take(at), line.skip(at + 1)))
    } else {
        None
    }
}

/// Space, tab, line feed, form feed and carriage return.
pub open spec fn is_space(byte: u8) -> bool {
    byte == 32 || byte == 9 || byte == 10 || byte == 12 || byte == 13
}

pub open spec fn trim_start(text: Seq<u8>) -> Seq<u8>
    decreases text.len(),
{
    if text.len() > 0 && is_space(text[0]) {
        trim_start(text.skip(1))
    } else {
        text
    }
}

pub open spec fn trim_end(text: Seq<u8>) -> Seq<u8>
    decreases text.len(),
{
    if text.len() > 0 && is_space(text.last()) {
        trim_end(text.drop_last())
    } else {
        text
    }
}

/// The text without the white space at its ends.
pub open spec fn trimmed(text: Seq<u8>) -> Seq<u8> {
    trim_end(trim_start(text))
}

/// The category that a key names.
pub open spec fn category_of(key: Seq<u8>) -> Option<XdgCategory> {
    if key == "XDG_DESKTOP_DIR".spec_bytes() {
        Some(XdgCategory::Desktop)
    } else if key == "XDG_DOCUMENTS_DIR".spec_bytes() {
        Some(XdgCategory::Documents)
    } else if key == "XDG_DOWNLOAD_DIR".spec_bytes() {
        Some(XdgCategory::Download)
    } else if key == "XDG_MUSIC_DIR".spec_bytes() {
        Some(XdgCategory::Music)
    } else if key == "XDG_PICTURES_DIR".spec_bytes() {
        Some(XdgCategory::Pictures)
    } else if key == "XDG_PUBLICSHARE_DIR".spec_bytes() {
        Some(XdgCategory::PublicShare)
    } else if key == "XDG_TEMPLATES_DIR".spec_bytes() {
        Some(XdgCategory::Templates)
    } else if key == "XDG_VIDEOS_DIR".spec_bytes() {
        Some(XdgCategory::Videos)
    } else {
        None
    }
}

/// What stands between the double quotes that open and close `value`.
pub open spec fn unquoted(value: Seq<u8>) -> Option<Seq<u8>> {
    if value.len() >= 2 && value[0] == QUOTE && value.last() == QUOTE {
        Some(value.subrange(1, value.len() - 1))
    } else {
        None
    }
}

/// The text without its backslashes.
pub open spec fn unescaped(text: Seq<u8>) -> Seq<u8>
    decreases text.len(),
{
    if text.len() == 0 {
        text
    } else if text.last() == BACKSLASH {
        unescaped(text.drop_last())
    } else {
        unescaped(text.drop_last()).push(text.last())
    }
}

pub open spec fn has_prefix(text: Seq<u8>, prefix: Seq<u8>) -> bool {
    prefix.len() <= text.len() && text.take(prefix.len() as int) == prefix
}

/// What a value places a category at: `$HOME/` alone disables it, a path
/// behind `$HOME/` lies below `home`, a path that begins with a slash
/// stands for itself.  Anything else places nothing.
pub open spec fn placement_of(value: Seq<u8>, home: FilePathView) -> Option<Placement> {
    let home_prefix = "$HOME/".spec_bytes();
    if value == home_prefix {
        Some(None)
    } else if has_prefix(value, home_prefix) {
        Some(
            Some(
                home.join(
                    parse(Platform::Linux, unescaped(value.skip(home_prefix.len() as int))),
                ),
            ),
        )
    } else if value.len() > 0 && value[0] == SLASH {
        Some(Some(parse(Platform::Linux, unescaped(value))))
    } else {
        None
    }
}

/// What a line says: a category and its placement, where the line has the
/// shape `XDG_<CATEGORY>_DIR="<value>"`.
pub open spec fn parsed_line(line: Seq<u8>, home: FilePathView) -> Option<
    (XdgCategory, Placement),
> {
    match split_once_spec(line, EQUALS) {
        Some((key, value)) => match category_of(trimmed(key)) {
            Some(category) => match unquoted(trimmed(value)) {
                Some(inner) => match placement_of(inner, home) {
                    Some(placement) => Some((category, placement)),
                    None => None,
                },
                None => None,
            },
            None => None,
        },
        None => None,
    }
}

/// What the lines say together; a later line overrides an earlier one.
pub open spec fn parsed_lines(lines: Seq<Seq<u8>>, home: FilePathView) -> Map<
    XdgCategory,
    Placement,
>
    decreases lines.len(),
{
    if lines.len() == 0 {
        Map::<XdgCategory, Placement>::empty()
    } else {
        let before = parsed_lines(lines.drop_last(), home);
        match parsed_line(lines.last(), home) {
            Some((category, placement)) => before.insert(category, placement),
            None => before,
        }
    }
}

/// What the user-dirs file says, given its bytes and the home directory.
pub open spec fn parse_xdg_dirs_spec(bytes: Seq<u8>, home: FilePathView) -> Map<
    XdgCategory,
    Placement,
> {
    parsed_lines(lines_of(bytes), home)
}

/// The value of what a line was parsed to.
pub open spec fn line_view(parsed: Option<(XdgCategory, Option<FilePath>)>) -> Option<
    (XdgCategory, Placement),
> {
    match parsed {
        Some((category, placement)) => Some((category, view_of(placement))),
        None => None,
    }
}

pub fn split_once(bytes: &[u8], sep: u8) -> (halves: Option<(&[u8], &[u8])>)
    ensures
        match halves {
            Some((left, right)) => split_once_spec(bytes@, sep) == Some((left@, right@)),
            None => split_once_spec(bytes@, sep) is None,
        },
{
    let mut i: usize = 0;
    while i < bytes.len()
        invariant
            i <= bytes.len(),
            forall|k: int| 0 <= k < i ==> bytes@[k] != sep,
        decreases bytes.len() - i,
    {
        if bytes[i] == sep {
            proof {
                assert(is_first(bytes@, sep, i as int));
                let at = choose|at: int| is_first(bytes@, sep, at);
                assert(at == i);
            }
            return Some((&bytes[0..i], &bytes[i + 1..bytes.len()]));
        }
        i += 1;
    }
    None
}

fn is_space_byte(byte: u8) -> (space: bool)
    ensures
        space == is_space(byte),
{
    byte == 32 || byte == 9 || byte == 10 || byte == 12 || byte == 13
}

/// The text without the white space at its ends.
pub fn trim_ascii(bytes: &[u8]) -> (text: &[u8])
    ensures
        text@ == trimmed(bytes@),
{
    let mut start: usize = 0;
    assert(bytes@.skip(0) =~= bytes@);
    while start < bytes.len() && is_space_byte(bytes[start])
        invariant
            start <= bytes.len(),
            trim_start(bytes@) == trim_start(bytes@.skip(start as int)),
        decreases bytes.len() - start,
    {
        assert(bytes@.skip(start as int).skip(1) =~= bytes@.skip(start + 1));
        start += 1;
    }
    let mut end: usize = bytes.len();
    assert(bytes@.skip(start as int) =~= bytes@.subrange(start as int, end as int));
    while end > start && is_space_byte(bytes[end - 1])
        invariant
            start <= end <= bytes.len(),
            trimmed(bytes@) == trim_end(bytes@.subrange(start as int, end as int)),
        decreases end - start,
    {
        assert(bytes@.subrange(start as int, end as int).drop_last() =~= bytes@.subrange(
            start as int,
            end - 1,
        ));
        end -= 1;
    }
    &bytes[start..end]
}

/// The category that a key names.
pub fn category(key: &[u8]) -> (category: Option<XdgCategory>)
    ensures
        category == category_of(key@),
{
    if bytes_eq(key, "XDG_DESKTOP_DIR".as_bytes()) {
        Some(XdgCategory::Desktop)
    } else if bytes_eq(key, "XDG_DOCUMENTS_DIR".as_bytes()) {
        Some(XdgCategory::Documents)
    } else if bytes_eq(key, "XDG_DOWNLOAD_DIR".as_bytes()) {
        Some(XdgCategory::Download)
    } else if bytes_eq(key, "XDG_MUSIC_DIR".as_bytes()) {
        Some(XdgCategory::Music)
    } else if bytes_eq(key, "XDG_PICTURES_DIR".as_bytes()) {
        Some(XdgCategory::Pictures)
    } else if bytes_eq(key, "XDG_PUBLICSHARE_DIR".as_bytes()) {
        Some(XdgCategory::PublicShare)
    } else if bytes_eq(key, "XDG_TEMPLATES_DIR".as_bytes()) {
        Some(XdgCategory::Templates)
    } else if bytes_eq(key, "XDG_VIDEOS_DIR".as_bytes()) {
        Some(XdgCategory::Videos)
    } else {
        None
    }
}

/// The text without its backslashes.
pub fn unescape(text: &[u8]) -> (plain: Vec<u8>)
    ensures
        plain@ == unescaped(text@),
{
    let mut plain: Vec<u8> = Vec::new();
    let mut i: usize = 0;
    assert(text@.take(0) =~= Seq::<u8>::empty());
    while i < text.len()
        invariant
            i <= text.len(),
            plain@ == unescaped(text@.take(i as int)),
        decreases text.len() - i,
    {
        assert(text@.take(i + 1).drop_last() =~= text@.take(i as int));
        if text[i] != BACKSLASH {
            plain.push(text[i]);
        }
        i += 1;
    }
    assert(text@.take(i as int) =~= text@);
    plain
}

fn starts_with_bytes(text: &[u8], prefix: &[u8]) -> (starts: bool)
    ensures
        starts == has_prefix(text@, prefix@),
{
    if prefix.len() > text.len() {
        return false;
    }
    bytes_eq(&text[0..prefix.len()], prefix)
}

/// Reads one line of the user-dirs file.
pub fn parse_line(line: &[u8], home: &FilePath) -> (parsed: Option<(XdgCategory, Option<FilePath>)>)
    ensures
        line_view(parsed) == parsed_line(line@, home@),
        home@.is_absolute() ==> match parsed {
            Some((_, placement)) => absolute_if_present(view_of(placement)),
            None => true,
        },
{
    let (key, val) = match split_once(line, EQUALS) {
        Some((key, val)) => (key, val),
        None => {
            return None;
        },
    };
    let key = trim_ascii(key);
    let key = match category(key) {
        Some(category) => category,
        None => {
            return None;
        },
    };
    let val = trim_ascii(val);
    if !(val.len() >= 2 && val[0] == QUOTE && val[val.len() - 1] == QUOTE) {
        return None;
    }
    let val = &val[1..val.len() - 1];
    let home_prefix = "$HOME/".as_bytes();
    if bytes_eq(val, home_prefix) {
        // "To disable a directory, point it to the homedir"
        // XDG doc
        return Some((key, None));
    }
    let path = if starts_with_bytes(val, home_prefix) {
        // Still need to remove all backslashes from val (escaped characters)
        let val = unescape(&val[home_prefix.len()..val.len()]);
        home.join(&FilePath::from_bytes(Platform::Linux, val.as_slice()))
    } else if val.len() > 0 && val[0] == SLASH {
        proof {
            lemma_unescaped_keeps_slash(val@);
        }
        let val = unescape(val);
        FilePath::from_bytes(Platform::Linux, val.as_slice())
    } else {
        return None;
    };
    Some((key, Some(path)))
}

/// A text that begins with a slash still does so without its backslashes.
pub proof fn lemma_unescaped_keeps_slash(text: Seq<u8>)
    requires
        text.len() > 0,
        text[0] == SLASH,
    ensures
        unescaped(text).len() > 0,
        unescaped(text)[0] == SLASH,
    decreases text.len(),
{
    if text.len() > 1 {
        lemma_unescaped_keeps_slash(text.drop_last());
    } else {
        assert(text.drop_last().len() == 0);
        assert(unescaped(text.drop_last()).len() == 0);
    }
}

/// Under an absolute home directory every placement that a line makes is
/// an absolute path.
pub proof fn lemma_placement_is_absolute(value: Seq<u8>, home: FilePathView)
    requires
        home.is_absolute(),
    ensures
        match placement_of(value, home) {
            Some(Some(path)) => path.is_absolute(),
            _ => true,
        },
{
    if value.len() > 0 && value[0] == SLASH {
        lemma_unescaped_keeps_slash(value);
    }
}

/// Under an absolute home directory every category that the lines place
/// is placed at an absolute path.
pub proof fn lemma_placements_are_absolute(lines: Seq<Seq<u8>>, home: FilePathView)
    requires
        home.is_absolute(),
    ensures
        forall|category: XdgCategory|
            match #[trigger] placed(parsed_lines(lines, home), category) {
                Some(path) => path.is_absolute(),
                None => true,
            },
    decreases lines.len(),
{
    if lines.len() > 0 {
        lemma_placements_are_absolute(lines.drop_last(), home);
        let before = parsed_lines(lines.drop_last(), home);
        match split_once_spec(lines.last(), EQUALS) {
            Some((key, value)) => match unquoted(trimmed(value)) {
                Some(inner) => {
                    lemma_placement_is_absolute(inner, home);
                },
                None => {},
            },
            None => {},
        }
        assert forall|category: XdgCategory|
            match #[trigger] placed(parsed_lines(lines, home), category) {
                Some(path) => path.is_absolute(),
                None => true,
            } by {
            let earlier = placed(before, category);
        }
    }
}

/// Reads the user-dirs file.  A line that does not place a category is
/// passed over; of two lines for one category the later one counts.
pub fn parse_xdg_dirs(bytes: Vec<u8>, home: FilePath) -> (entries: AreiaResult<UserDirEntries>)
    ensures
        entries is Ok,
        entries.unwrap()@ == parse_xdg_dirs_spec(bytes@, home@),
        home@.is_absolute() ==> entries.unwrap().all_absolute(),
{
    let mut out = UserDirEntries::new();
    let text = bytes.as_slice();
    let mut start: usize = 0;
    let mut i: usize = 0;
    assert(text@.take(0) =~= Seq::<u8>::empty());
    assert(lines_of(text@.take(0)).drop_last() =~= Seq::<Seq<u8>>::empty());
    assert(text@.subrange(0, 0) =~= Seq::<u8>::empty());
    // We always continue (fail forwards) as not all lines are valid user dirs - there is normal
    //      text in there
    while i < text.len()
        invariant
            start <= i <= text.len(),
            text@ == bytes@,
            lines_of(text@.take(i as int)).len() > 0,
            lines_of(text@.take(i as int)).last() == text@.subrange(start as int, i as int),
            out@ == parsed_lines(lines_of(text@.take(i as int)).drop_last(), home@),
            home@.is_absolute() ==> out.all_absolute(),
        decreases text.len() - i,
    {
        let ghost seen = text@.take(i as int);
        let ghost next = text@.take(i + 1);
        proof {
            assert(next.drop_last() =~= seen);
            assert(next.last() == text@[i as int]);
            let before = lines_of(seen);
            if text@[i as int] == LINE_FEED {
                assert(lines_of(next).drop_last() =~= before);
                assert(before.drop_last().push(before.last()) =~= before);
                assert(text@.subrange(i + 1, i + 1) =~= Seq::<u8>::empty());
            } else {
                assert(lines_of(next).drop_last() =~= before.drop_last());
                assert(text@.subrange(start as int, i + 1) =~= text@.subrange(
                    start as int,
                    i as int,
                ).push(text@[i as int]));
            }
        }
        if text[i] == LINE_FEED {
            match parse_line(&text[start..i], &home) {
                Some((key, path)) => {
                    out.set(key, path);
                },
                None => {},
            }
            start = i + 1;
        }
        i += 1;
    }
    proof {
        assert(text@.take(i as int) =~= text@);
        let all = lines_of(text@);
        assert(all.drop_last().push(all.last()) =~= all);
    }
    match parse_line(&text[start..i], &home) {
        Some((key, path)) => {
            out.set(key, path);
        },
        None => {},
    }
    Ok(out)
}

/// The directories for the user's content: what the user-dirs file places,
/// and the font directory where it exists.
pub open spec fn usr_dirs_spec(home: FilePathView, env: LinuxEnv) -> Result<
    UsrDirsView,
    AreiaErrorView,
> {
    match env.user_dirs_file {
        Ok(bytes) => {
            let entries = parse_xdg_dirs_spec(bytes@, home);
            Ok(
                UsrDirsView {
                    music: placed(entries, XdgCategory::Music),
                    desktop: placed(entries, XdgCategory::Desktop),
                    documents: placed(entries, XdgCategory::Documents),
                    downloads: placed(entries, XdgCategory::Download),
                    pictures: placed(entries, XdgCategory::Pictures),
                    public_share: placed(entries, XdgCategory::PublicShare),
                    templates: placed(entries, XdgCategory::Templates),
                    videos: placed(entries, XdgCategory::Videos),
                    fonts: font_dir_spec(home, env),
                },
            )
        },
        Err(message) => Err(AreiaErrorView::IoError(message@)),
    }
}

pub fn get_usr_dirs(home: FilePath, env: &LinuxEnv) -> (dirs: AreiaResult<UsrDirs>)
    ensures
        outcome(dirs) == usr_dirs_spec(home@, *env),
        dirs is Ok && home@.is_absolute() ==> dirs.unwrap()@.all_absolute(),
{
    match &env.user_dirs_file {
        Ok(bytes) => {
            let fonts = child(&home, ".local/share/fonts");
            let fonts = is_existent_path(fonts, &env.existing);
            let entries = parse_xdg_dirs(slice_to_vec(bytes.as_slice()), home)?;
            Ok(
                UsrDirs {
                    music: entries.location(XdgCategory::Music),
                    desktop: entries.location(XdgCategory::Desktop),
                    documents: entries.location(XdgCategory::Documents),
                    downloads: entries.location(XdgCategory::Download),
                    pictures: entries.location(XdgCategory::Pictures),
                    public_share: entries.location(XdgCategory::PublicShare),
                    templates: entries.location(XdgCategory::Templates),
                    videos: entries.location(XdgCategory::Videos),
                    fonts,
                },
            )
        },
        Err(err) => Err(AreiaError::IoError(err.clone())),
    }
}

} // verus!

use areia::error::AreiaError;
use areia::fs::{Entry, EntryKind, FsAction, Transition};
use areia::path::FilePath;
use areia::utils::platform::{Environment, KnownFolders, LinuxEnv, Platform, WindowsEnv};
use areia::{BaseDirs, Hidden, UserDirs};

fn law_path(text: &str) -> FilePath {
    FilePath::from_bytes(Platform::Linux, text.as_bytes())
}

fn law_windows_path(text: &str) -> FilePath {
    FilePath::from_bytes(Platform::Windows, text.as_bytes())
}

fn law_linux() -> Environment {
    Environment::Linux(LinuxEnv {
        home: Some(law_path("/home/u")),
        home_fallback: None,
        cache_home: Some(law_path("/var/cache/u")),
        config_home: None,
        data_home: None,
        state_home: None,
        bin_home: None,
        runtime_dir: Some(law_path("/run/user/1000")),
        existing: vec![
            law_path("/home/u/.config"),
            law_path("/home/u/.local/share"),
            law_path("/home/u/.local/state"),
            law_path("/home/u/.local/bin"),
            law_path("/home/u/.local/share/fonts"),
        ],
        user_dirs_file: Ok(b"XDG_MUSIC_DIR=\"$HOME/Music\"\nXDG_VIDEOS_DIR=\"/srv/videos\"\n".to_vec()),
    })
}

fn law_windows() -> Environment {
    Environment::Windows(WindowsEnv {
        folders: KnownFolders {
            profile: Ok(law_windows_path("C:\\Users\\u")),
            local_app_data: Ok(law_windows_path("C:\\Users\\u\\AppData\\Local")),
            roaming_app_data: Ok(law_windows_path("C:\\Users\\u\\AppData\\Roaming")),
            desktop: Ok(law_windows_path("C:\\Users\\u\\Desktop")),
            document: Ok(law_windows_path("C:\\Users\\u\\Documents")),
            download: Ok(law_windows_path("C:\\Users\\u\\Downloads")),
            music: Ok(law_windows_path("C:\\Users\\u\\Music")),
            picture: Ok(law_windows_path("C:\\Users\\u\\Pictures")),
            public: Ok(law_windows_path("C:\\Users\\Public")),
            template: Ok(law_windows_path("C:\\Users\\u\\Templates")),
            video: Ok(law_windows_path("C:\\Users\\u\\Videos")),
        },
        user_profile: None,
    })
}

/// The entry as it is once the actions of a transition are done.
fn after(transition: &Transition, before: Entry) -> Entry {
    let mut entry = before;
    for action in &transition.actions {
        match action {
            FsAction::CreateFile(_) => entry.kind = EntryKind::File,
            FsAction::SetAttributes { bits, .. } => entry.attributes = Ok(*bits),
            _ => {}
        }
    }
    entry
}

#[test]
fn hiding_is_idempotent_on_every_platform() {
    for platform in [Platform::Linux, Platform::MacOs, Platform::Windows] {
        for text in ["a", "a/b", "/x/y/z", ".a/b", "a/.b"] {
            for bits in [0x00u32, 0x02, 0x20, 0x80, 0x26] {
                let path = law_path(text);
                let before = Entry { kind: EntryKind::File, attributes: Ok(bits) };
                let first = path.hide_path(&before, platform).unwrap();
                let then = after(&first, Entry { kind: EntryKind::File, attributes: Ok(bits) });
                let second = first.path.hide_path(&then, platform).unwrap();
                assert_eq!(second.path, first.path);
                assert!(second.actions.is_empty());
                assert!(first.path.is_hidden(&then, platform).unwrap());
            }
        }
    }
}

#[test]
fn unhiding_reverses_hiding() {
    let env = law_linux();
    for text in ["a", "a/b", "/x/y/z", "/home/u/notes.txt", "/home/u/cache"] {
        for kind in [EntryKind::Missing, EntryKind::File, EntryKind::Directory] {
            let path = law_path(text);
            let hidden = path.hide_path(&Entry { kind, attributes: Ok(0) }, Platform::Linux).unwrap();
            let then = after(&hidden, Entry { kind, attributes: Ok(0) });
            let shown = hidden.path.unhide(&then, &env).unwrap();
            assert_eq!(shown.path, path);
        }
    }
    let env = law_windows();
    for bits in [0x00u32, 0x20, 0x80, 0x04] {
        let path = law_windows_path("C:\\Users\\u\\notes.txt");
        let before = Entry { kind: EntryKind::File, attributes: Ok(bits) };
        let hidden = path.hide_path(&before, Platform::Windows).unwrap();
        let then = after(&hidden, Entry { kind: EntryKind::File, attributes: Ok(bits) });
        let shown = hidden.path.unhide(&then, &env).unwrap();
        assert_eq!(shown.path, path);
        assert_eq!(shown.actions.len(), 1);
    }
}

#[test]
fn a_hidden_name_that_is_a_protected_directory_is_not_unhidden() {
    // `/home/u/config` is visible and lies in no protected directory, but
    // its hidden name is the config directory itself
    let env = law_linux();
    let path = law_path("/home/u/config");
    let hidden = path.hide_path(&Entry { kind: EntryKind::Missing, attributes: Ok(0) }, Platform::Linux);
    let hidden = hidden.unwrap();
    assert_eq!(hidden.path, law_path("/home/u/.config"));
    let shown = hidden.path.unhide(&Entry { kind: EntryKind::File, attributes: Ok(0) }, &env);
    assert!(matches!(shown, Err(AreiaError::HiddenFileInsideSystemDir(_))));
}

#[test]
fn hidden_entries_in_protected_directories_stay_hidden() {
    let env = law_linux();
    let base = BaseDirs::new(&env).unwrap();
    let user = UserDirs::new(&env).unwrap();
    let mut protected = vec![
        base.cache_dir().clone(),
        base.config_dir().clone(),
        base.config_local_dir().clone(),
        base.data_dir().clone(),
        base.data_local_dir().clone(),
        base.preference_dir().clone(),
    ];
    protected.push(base.state_dir().unwrap().clone());
    protected.push(base.executable_dir().unwrap().clone());
    protected.push(user.font_dir().clone().unwrap());
    for dir in &protected {
        for below in [".x", "a/.x", ".a/x", "a/b/.c"] {
            let path = dir.join(&law_path(below));
            for kind in [EntryKind::Missing, EntryKind::File, EntryKind::Directory] {
                let result = path.unhide(&Entry { kind, attributes: Ok(0) }, &env);
                match result {
                    Err(AreiaError::HiddenFileInsideSystemDir(refused)) => assert_eq!(refused, path),
                    other => panic!("unexpected: {:?}", other),
                }
            }
        }
    }
    // the runtime directory and the home directory protect nothing
    let path = base.runtime_dir().unwrap().join(&law_path(".x"));
    assert!(path.unhide(&Entry { kind: EntryKind::File, attributes: Ok(0) }, &env).is_ok());
    let path = base.home_dir().join(&law_path(".x"));
    assert!(path.unhide(&Entry { kind: EntryKind::File, attributes: Ok(0) }, &env).is_ok());
}

#[test]
fn resolved_directories_are_absolute() {
    for env in [law_linux(), law_windows()] {
        let base = BaseDirs::new(&env).unwrap();
        assert!(base.home_dir().is_absolute());
        assert!(base.cache_dir().is_absolute());
        assert!(base.config_dir().is_absolute());
        assert!(base.config_local_dir().is_absolute());
        assert!(base.data_dir().is_absolute());
        assert!(base.data_local_dir().is_absolute());
        assert!(base.preference_dir().is_absolute());
        for dir in [base.executable_dir(), base.runtime_dir(), base.state_dir()] {
            assert!(dir.map_or(true, |dir| dir.is_absolute()));
        }
        let user = UserDirs::new(&env).unwrap();
        assert!(user.home_dir().is_absolute());
        for dir in [
            user.audio_dir(),
            user.desktop_dir(),
            user.document_dir(),
            user.download_dir(),
            user.font_dir(),
            user.picture_dir(),
            user.public_dir(),
            user.template_dir(),
            user.video_dir(),
        ] {
            assert!(dir.as_ref().map_or(true, |dir| dir.is_absolute()));
        }
    }
}

#[test]
fn reading_what_was_written_gives_the_path_back() {
    for text in ["", "/", "a", "/a", "a/b/c", "/a/b/c", "./a", ".", "..", "/a/../b", "a\\b/c"] {
        let path = law_path(text);
        assert_eq!(FilePath::from_bytes(Platform::Linux, &path.to_bytes()), path);
        assert_eq!(path.to_bytes(), text.as_bytes().to_vec());
    }
    for text in ["C:\\a\\b", "\\\\server\\share\\x", "\\a", "a/b"] {
        let path = law_windows_path(text);
        assert_eq!(FilePath::from_bytes(Platform::Windows, &path.to_bytes()), path);
    }
}

#[test]
fn every_error_says_what_went_wrong() {
    let path = law_path("/a");
    assert_eq!(AreiaError::PathMustBeAbsolute(law_path("a")).message(), "Path must be absolute");
    assert_eq!(
        AreiaError::PathMustBeSomething(law_path("")).message(),
        "Path must be something"
    );
    assert_eq!(AreiaError::FileDoesNotExist(path.clone()).message(), "File does not exist");
    assert_eq!(AreiaError::CantGetHomeDir.message(), "Can't get home directory");
    assert_eq!(
        AreiaError::MakingHiddenPathNotSupported(String::from("why")).message(),
        "Making hidden path not supported. Reason: why"
    );
    assert_eq!(
        AreiaError::SuperHidingNotSupported(String::from("why")).message(),
        "Super hiding not supported. Reason: why"
    );
    assert_eq!(
        AreiaError::SuperHidingRequiresExistingPath(path.clone()).message(),
        "Super hiding requires an existing path (either file or directory)"
    );
    assert_eq!(AreiaError::IoError(String::from("denied")).message(), "IO error: denied");
    assert_eq!(
        AreiaError::WindowsError(String::from("x")).message(),
        "Windows error. \n Unable to get: x"
    );
    assert_eq!(AreiaError::WindowsIoError(String::from("x")).message(), "Windows IO error: x");
    assert_eq!(
        AreiaError::WindowsErrorPathDoesNotExist(path.clone()).message(),
        "Windows Error: Path does not exist"
    );
    assert_eq!(AreiaError::MacError(String::from("x")).message(), "Mac error. \n Unable to get: x");
    assert_eq!(
        AreiaError::HiddenFileInsideSystemDir(path.clone()).message(),
        "Hidden file inside system directory"
    );
    assert_eq!(AreiaError::HiddenFileInsideSystemDir(path.clone()).path(), Some(&path));
    assert_eq!(AreiaError::CantGetHomeDir.path(), None);
    assert_eq!(AreiaError::IoError(String::from("denied")).path(), None);
}

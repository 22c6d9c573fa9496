use areia::error::AreiaError;
use areia::path::FilePath;
use areia::utils::platform::{
    Environment, KnownFolders, LinuxEnv, MacEnv, Platform, WindowsEnv,
};
use areia::UserDirs;

fn user_path(text: &str) -> FilePath {
    FilePath::from_bytes(Platform::Linux, text.as_bytes())
}

fn user_windows_path(text: &str) -> FilePath {
    FilePath::from_bytes(Platform::Windows, text.as_bytes())
}

const USER_DIRS_FILE: &str = "# This file is written by xdg-user-dirs-update
# If you want to change or add directories, just edit the line you're
# interested in. All local changes will be retained on the next run.
# Format is XDG_xxx_DIR=\"$HOME/yyy\", where yyy is a shell-escaped
# homedir-relative path, or XDG_xxx_DIR=\"/yyy\", where /yyy is an
# absolute path. No other format is supported.
#
XDG_DESKTOP_DIR=\"$HOME/Desktop\"
XDG_DOWNLOAD_DIR=\"$HOME/Downloads\"
XDG_TEMPLATES_DIR=\"$HOME/Templates\"
XDG_PUBLICSHARE_DIR=\"$HOME/Public\"
XDG_DOCUMENTS_DIR=\"$HOME/Documents\"
XDG_MUSIC_DIR=\"$HOME/Music\"
XDG_PICTURES_DIR=\"$HOME/Pictures\"
XDG_VIDEOS_DIR=\"$HOME/Videos\"
";

fn user_linux(file: Result<Vec<u8>, String>) -> LinuxEnv {
    LinuxEnv {
        home: Some(user_path("/home/u")),
        home_fallback: None,
        cache_home: None,
        config_home: None,
        data_home: None,
        state_home: None,
        bin_home: None,
        runtime_dir: None,
        existing: vec![user_path("/home/u/.local/share/fonts")],
        user_dirs_file: file,
    }
}

fn user_mac() -> MacEnv {
    MacEnv {
        home: Some(user_path("/Users/u")),
        home_fallback: None,
        native_home: None,
        existing: vec![user_path("/Users/u/Library/Fonts")],
    }
}

fn user_folders() -> KnownFolders {
    KnownFolders {
        profile: Ok(user_windows_path("C:\\Users\\u")),
        local_app_data: Ok(user_windows_path("C:\\Users\\u\\AppData\\Local")),
        roaming_app_data: Ok(user_windows_path("C:\\Users\\u\\AppData\\Roaming")),
        desktop: Ok(user_windows_path("C:\\Users\\u\\Desktop")),
        document: Ok(user_windows_path("C:\\Users\\u\\Documents")),
        download: Ok(user_windows_path("C:\\Users\\u\\Downloads")),
        music: Ok(user_windows_path("C:\\Users\\u\\Music")),
        picture: Ok(user_windows_path("C:\\Users\\u\\Pictures")),
        public: Ok(user_windows_path("C:\\Users\\Public")),
        template: Ok(user_windows_path("C:\\Users\\u\\Templates")),
        video: Ok(user_windows_path("C:\\Users\\u\\Videos")),
    }
}

#[test]
fn create_new_user() {
    let env = Environment::Linux(user_linux(Ok(USER_DIRS_FILE.as_bytes().to_vec())));
    let new_user = UserDirs::new(&env);
    if new_user.is_err() {
        println!("{:?}", new_user);
    }
    assert!(new_user.is_ok());
    assert!(UserDirs::new(&Environment::MacOs(user_mac())).is_ok());
    let env = Environment::Windows(WindowsEnv { folders: user_folders(), user_profile: None });
    assert!(UserDirs::new(&env).is_ok());
}

#[test]
fn user_all_paths_present() {
    // Linux
    let env = Environment::Linux(user_linux(Ok(USER_DIRS_FILE.as_bytes().to_vec())));
    let user = UserDirs::new(&env);
    assert!(user.is_ok());
    let user = user.unwrap();

    assert!(user.home_dir().is_absolute());
    // All linux user directories may not exist, with the exception of `Home`, `Fonts`
    if user.audio_dir().is_some() {
        assert!(user.audio_dir().as_ref().unwrap().is_absolute());
        assert_ne!(user.audio_dir().as_ref().unwrap(), &user_path(""));
    }
    if user.desktop_dir().is_some() {
        assert!(user.desktop_dir().as_ref().unwrap().is_absolute());
        assert_ne!(user.desktop_dir().as_ref().unwrap(), &user_path(""));
    }
    if user.document_dir().is_some() {
        assert!(user.document_dir().as_ref().unwrap().is_absolute());
        assert_ne!(user.document_dir().as_ref().unwrap(), &user_path(""));
    }
    if user.download_dir().is_some() {
        assert!(user.download_dir().as_ref().unwrap().is_absolute());
        assert_ne!(user.download_dir().as_ref().unwrap(), &user_path(""));
    }
    assert!(user.font_dir().is_some());
    assert!(user.font_dir().as_ref().unwrap().is_absolute());
    assert_ne!(user.font_dir().as_ref().unwrap(), &user_path(""));
    if user.picture_dir().is_some() {
        assert!(user.picture_dir().as_ref().unwrap().is_absolute());
        assert_ne!(user.picture_dir().as_ref().unwrap(), &user_path(""));
    }
    if user.public_dir().is_some() {
        assert!(user.public_dir().as_ref().unwrap().is_absolute());
        assert_ne!(user.public_dir().as_ref().unwrap(), &user_path(""));
    }
    if user.template_dir().is_some() {
        assert!(user.template_dir().as_ref().unwrap().is_absolute());
        assert_ne!(user.template_dir().as_ref().unwrap(), &user_path(""));
    }
    if user.video_dir().is_some() {
        assert!(user.video_dir().as_ref().unwrap().is_absolute());
        assert_ne!(user.video_dir().as_ref().unwrap(), &user_path(""));
    }

    // macOS
    let user = UserDirs::new(&Environment::MacOs(user_mac()));
    assert!(user.is_ok());
    let user = user.unwrap();

    assert!(user.home_dir().is_absolute());
    // In contrast to linux, only templates will never exists, all others always will
    assert!(user.audio_dir().is_some());
    assert_ne!(user.audio_dir().as_ref().unwrap(), &user_path(""));
    assert!(user.desktop_dir().is_some());
    assert_ne!(user.desktop_dir().as_ref().unwrap(), &user_path(""));
    assert!(user.document_dir().is_some());
    assert_ne!(user.document_dir().as_ref().unwrap(), &user_path(""));
    assert!(user.download_dir().is_some());
    assert_ne!(user.download_dir().as_ref().unwrap(), &user_path(""));
    assert!(user.font_dir().is_some());
    assert_ne!(user.font_dir().as_ref().unwrap(), &user_path(""));
    assert!(user.picture_dir().is_some());
    assert_ne!(user.picture_dir().as_ref().unwrap(), &user_path(""));
    assert!(user.public_dir().is_some());
    assert_ne!(user.public_dir().as_ref().unwrap(), &user_path(""));
    assert!(user.template_dir().is_none());
    assert!(user.video_dir().is_some());
    assert_ne!(user.video_dir().as_ref().unwrap(), &user_path(""));

    // Windows
    let env = Environment::Windows(WindowsEnv { folders: user_folders(), user_profile: None });
    let user = UserDirs::new(&env);
    assert!(user.is_ok());
    let user = user.unwrap();

    assert!(user.home_dir().is_absolute());
    // In contrast to mac, only fonts will never exists, all others always will
    assert!(user.audio_dir().is_some());
    assert_ne!(user.audio_dir().as_ref().unwrap(), &user_windows_path(""));
    assert!(user.desktop_dir().is_some());
    assert_ne!(user.desktop_dir().as_ref().unwrap(), &user_windows_path(""));
    assert!(user.document_dir().is_some());
    assert_ne!(user.document_dir().as_ref().unwrap(), &user_windows_path(""));
    assert!(user.download_dir().is_some());
    assert_ne!(user.download_dir().as_ref().unwrap(), &user_windows_path(""));
    assert!(user.font_dir().is_none());
    assert!(user.picture_dir().is_some());
    assert_ne!(user.picture_dir().as_ref().unwrap(), &user_windows_path(""));
    assert!(user.public_dir().is_some());
    assert_ne!(user.public_dir().as_ref().unwrap(), &user_windows_path(""));
    assert!(user.template_dir().is_some());
    assert_ne!(user.template_dir().as_ref().unwrap(), &user_windows_path(""));
    assert!(user.video_dir().is_some());
    assert_ne!(user.video_dir().as_ref().unwrap(), &user_windows_path(""));
}

#[test]
fn linux_user_dirs_come_from_the_file() {
    let env = Environment::Linux(user_linux(Ok(USER_DIRS_FILE.as_bytes().to_vec())));
    let user = UserDirs::new(&env).unwrap();
    assert_eq!(user.home_dir(), &user_path("/home/u"));
    assert_eq!(user.audio_dir(), &Some(user_path("/home/u/Music")));
    assert_eq!(user.desktop_dir(), &Some(user_path("/home/u/Desktop")));
    assert_eq!(user.document_dir(), &Some(user_path("/home/u/Documents")));
    assert_eq!(user.download_dir(), &Some(user_path("/home/u/Downloads")));
    assert_eq!(user.font_dir(), &Some(user_path("/home/u/.local/share/fonts")));
    assert_eq!(user.picture_dir(), &Some(user_path("/home/u/Pictures")));
    assert_eq!(user.public_dir(), &Some(user_path("/home/u/Public")));
    assert_eq!(user.template_dir(), &Some(user_path("/home/u/Templates")));
    assert_eq!(user.video_dir(), &Some(user_path("/home/u/Videos")));
}

#[test]
fn a_category_without_a_line_is_absent() {
    let file = "XDG_DESKTOP_DIR=\"/srv/desk\"\nXDG_MUSIC_DIR=\"$HOME/\"\n";
    let mut env = user_linux(Ok(file.as_bytes().to_vec()));
    env.existing = vec![];
    let user = UserDirs::new(&Environment::Linux(env)).unwrap();
    assert_eq!(user.desktop_dir(), &Some(user_path("/srv/desk")));
    assert_eq!(user.audio_dir(), &None);
    assert_eq!(user.video_dir(), &None);
    assert_eq!(user.font_dir(), &None);
}

#[test]
fn an_unreadable_file_fails_the_user_dirs() {
    let env = Environment::Linux(user_linux(Err(String::from("No such file or directory"))));
    match UserDirs::new(&env) {
        Err(AreiaError::IoError(message)) => assert_eq!(message, "No such file or directory"),
        other => panic!("unexpected: {:?}", other),
    }
}

#[test]
fn user_dirs_need_a_home_directory() {
    let mut env = user_linux(Ok(Vec::new()));
    env.home = None;
    assert!(matches!(UserDirs::new(&Environment::Linux(env)), Err(AreiaError::CantGetHomeDir)));
}

#[test]
fn mac_user_dirs_lie_below_the_home_directory() {
    let user = UserDirs::new(&Environment::MacOs(user_mac())).unwrap();
    assert_eq!(user.audio_dir(), &Some(user_path("/Users/u/Music")));
    assert_eq!(user.desktop_dir(), &Some(user_path("/Users/u/Desktop")));
    assert_eq!(user.document_dir(), &Some(user_path("/Users/u/Documents")));
    assert_eq!(user.download_dir(), &Some(user_path("/Users/u/Downloads")));
    assert_eq!(user.picture_dir(), &Some(user_path("/Users/u/Pictures")));
    assert_eq!(user.public_dir(), &Some(user_path("/Users/u/Public")));
    assert_eq!(user.video_dir(), &Some(user_path("/Users/u/Movies")));
    assert_eq!(user.font_dir(), &Some(user_path("/Users/u/Library/Fonts")));

    let mut env = user_mac();
    env.existing = vec![];
    let user = UserDirs::new(&Environment::MacOs(env)).unwrap();
    assert_eq!(user.font_dir(), &None);
}

#[test]
fn windows_user_dirs_are_the_known_folders() {
    let env = Environment::Windows(WindowsEnv { folders: user_folders(), user_profile: None });
    let user = UserDirs::new(&env).unwrap();
    assert_eq!(user.audio_dir(), &Some(user_windows_path("C:\\Users\\u\\Music")));
    assert_eq!(user.download_dir(), &Some(user_windows_path("C:\\Users\\u\\Downloads")));
    assert_eq!(user.public_dir(), &Some(user_windows_path("C:\\Users\\Public")));

    // the first folder that is not known fails them all
    let mut folders = user_folders();
    folders.picture = Err(String::from("Failed to get Picture"));
    folders.video = Err(String::from("Failed to get Video"));
    let env = Environment::Windows(WindowsEnv { folders, user_profile: None });
    match UserDirs::new(&env) {
        Err(AreiaError::WindowsError(message)) => assert_eq!(message, "Failed to get Picture"),
        other => panic!("unexpected: {:?}", other),
    }
}

use areia::error::AreiaError;
use areia::path::FilePath;
use areia::utils::factory::{conventional_dirs, has_layout};
use areia::utils::get_home;
use areia::utils::platform::{
    Environment, KnownFolders, LinuxEnv, MacEnv, Platform, WindowsEnv,
};
use areia::BaseDirs;

fn unix_path(text: &str) -> FilePath {
    FilePath::from_bytes(Platform::Linux, text.as_bytes())
}

fn windows_path(text: &str) -> FilePath {
    FilePath::from_bytes(Platform::Windows, text.as_bytes())
}

fn base_linux() -> LinuxEnv {
    LinuxEnv {
        home: Some(unix_path("/home/u")),
        home_fallback: None,
        cache_home: None,
        config_home: None,
        data_home: None,
        state_home: None,
        bin_home: None,
        runtime_dir: None,
        existing: vec![
            unix_path("/home/u/.cache"),
            unix_path("/home/u/.config"),
            unix_path("/home/u/.local/share"),
            unix_path("/home/u/.local/state"),
            unix_path("/home/u/.local/bin"),
        ],
        user_dirs_file: Err(String::from("not read")),
    }
}

fn base_mac() -> MacEnv {
    MacEnv {
        home: Some(unix_path("/Users/u")),
        home_fallback: None,
        native_home: None,
        existing: vec![
            unix_path("/Users/u/Library/Caches"),
            unix_path("/Users/u/Library/Application Support"),
            unix_path("/Users/u/Library/Preferences"),
        ],
    }
}

fn base_folders() -> KnownFolders {
    KnownFolders {
        profile: Ok(windows_path("C:\\Users\\u")),
        local_app_data: Ok(windows_path("C:\\Users\\u\\AppData\\Local")),
        roaming_app_data: Ok(windows_path("C:\\Users\\u\\AppData\\Roaming")),
        desktop: Ok(windows_path("C:\\Users\\u\\Desktop")),
        document: Ok(windows_path("C:\\Users\\u\\Documents")),
        download: Ok(windows_path("C:\\Users\\u\\Downloads")),
        music: Ok(windows_path("C:\\Users\\u\\Music")),
        picture: Ok(windows_path("C:\\Users\\u\\Pictures")),
        public: Ok(windows_path("C:\\Users\\Public")),
        template: Ok(windows_path("C:\\Users\\u\\Templates")),
        video: Ok(windows_path("C:\\Users\\u\\Videos")),
    }
}

fn resolve(env: &Environment) -> Result<BaseDirs, AreiaError> {
    // the layout is a precondition of the resolver
    if let Ok(home) = get_home(env) {
        assert!(has_layout(&home, env));
    }
    BaseDirs::new(env)
}

#[test]
fn create_new_base() {
    let new_base = resolve(&Environment::Linux(base_linux()));
    assert!(new_base.is_ok());
    let new_base = resolve(&Environment::MacOs(base_mac()));
    assert!(new_base.is_ok());
    let new_base =
        resolve(&Environment::Windows(WindowsEnv { folders: base_folders(), user_profile: None }));
    assert!(new_base.is_ok());
}

#[test]
fn base_all_paths_present() {
    // Linux
    let mut env = base_linux();
    env.runtime_dir = Some(unix_path("/run/user/1000"));
    let base = resolve(&Environment::Linux(env));
    assert!(base.is_ok());
    let base = base.unwrap();

    assert!(base.home_dir().is_absolute());
    assert_ne!(base.home_dir(), &unix_path(""));
    assert_ne!(base.home_dir(), &unix_path("/"));
    assert!(base.cache_dir().is_absolute());
    assert_ne!(base.cache_dir(), &unix_path(""));
    assert!(base.config_dir().is_absolute());
    assert_ne!(base.config_dir(), &unix_path(""));
    assert!(base.config_local_dir().is_absolute());
    assert_ne!(base.config_local_dir(), &unix_path(""));
    assert!(base.data_dir().is_absolute());
    assert_ne!(base.data_dir(), &unix_path(""));
    assert!(base.data_local_dir().is_absolute());
    assert_ne!(base.data_local_dir(), &unix_path(""));
    assert!(base.executable_dir().is_some());
    assert!(base.executable_dir().unwrap().is_absolute());
    assert_ne!(base.executable_dir().unwrap(), &unix_path(""));
    assert!(base.preference_dir().is_absolute());
    assert_ne!(base.preference_dir(), &unix_path(""));
    // Runtime may be set or not
    if base.runtime_dir().is_some() {
        assert!(base.runtime_dir().unwrap().is_absolute());
        assert_ne!(base.runtime_dir().unwrap(), &unix_path(""));
    }
    assert!(base.state_dir().is_some());
    assert!(base.state_dir().unwrap().is_absolute());
    assert_ne!(base.state_dir().unwrap(), &unix_path(""));

    // macOS
    let base = resolve(&Environment::MacOs(base_mac()));
    assert!(base.is_ok());
    let base = base.unwrap();

    assert!(base.home_dir().is_absolute());
    assert_ne!(base.home_dir(), &unix_path(""));
    assert_ne!(base.home_dir(), &unix_path("/"));
    assert!(base.cache_dir().is_absolute());
    assert_ne!(base.cache_dir(), &unix_path(""));
    assert!(base.config_dir().is_absolute());
    assert_ne!(base.config_dir(), &unix_path(""));
    assert!(base.config_local_dir().is_absolute());
    assert_ne!(base.config_local_dir(), &unix_path(""));
    assert!(base.data_dir().is_absolute());
    assert_ne!(base.data_dir(), &unix_path(""));
    assert!(base.data_local_dir().is_absolute());
    assert_ne!(base.data_local_dir(), &unix_path(""));
    assert!(base.executable_dir().is_none());
    assert!(base.preference_dir().is_absolute());
    assert_ne!(base.preference_dir(), &unix_path(""));
    assert!(base.runtime_dir().is_none());
    assert!(base.state_dir().is_none());

    // Windows
    let base =
        resolve(&Environment::Windows(WindowsEnv { folders: base_folders(), user_profile: None }));
    assert!(base.is_ok());
    let base = base.unwrap();

    assert!(base.home_dir().is_absolute());
    assert_ne!(base.home_dir(), &windows_path(""));
    assert!(base.cache_dir().is_absolute());
    assert_ne!(base.cache_dir(), &windows_path(""));
    assert!(base.config_dir().is_absolute());
    assert_ne!(base.config_dir(), &windows_path(""));
    assert!(base.config_local_dir().is_absolute());
    assert_ne!(base.config_local_dir(), &windows_path(""));
    assert!(base.data_dir().is_absolute());
    assert_ne!(base.data_dir(), &windows_path(""));
    assert!(base.data_local_dir().is_absolute());
    assert_ne!(base.data_local_dir(), &windows_path(""));
    assert!(base.executable_dir().is_none());
    assert!(base.preference_dir().is_absolute());
    assert_ne!(base.preference_dir(), &windows_path(""));
    assert!(base.runtime_dir().is_none());
    assert!(base.state_dir().is_none());
}

#[test]
fn linux_base_dirs_follow_the_conventions() {
    let base = resolve(&Environment::Linux(base_linux())).unwrap();
    assert_eq!(base.home_dir(), &unix_path("/home/u"));
    assert_eq!(base.cache_dir(), &unix_path("/home/u/.cache"));
    assert_eq!(base.config_dir(), &unix_path("/home/u/.config"));
    assert_eq!(base.config_local_dir(), &unix_path("/home/u/.config"));
    assert_eq!(base.data_dir(), &unix_path("/home/u/.local/share"));
    assert_eq!(base.data_local_dir(), &unix_path("/home/u/.local/share"));
    assert_eq!(base.preference_dir(), &unix_path("/home/u/.config"));
    assert_eq!(base.state_dir(), Some(&unix_path("/home/u/.local/state")));
    assert_eq!(base.executable_dir(), Some(&unix_path("/home/u/.local/bin")));
    assert_eq!(base.runtime_dir(), None);
}

#[test]
fn linux_variables_come_before_the_conventions() {
    let mut env = base_linux();
    env.existing = vec![];
    env.cache_home = Some(unix_path("/var/cache/u"));
    env.config_home = Some(unix_path("/etc/u"));
    env.data_home = Some(unix_path("/srv/u"));
    env.state_home = Some(unix_path("/var/lib/u"));
    env.bin_home = Some(unix_path("/opt/u/bin"));
    env.runtime_dir = Some(unix_path("/run/user/1000"));
    let base = resolve(&Environment::Linux(env)).unwrap();
    assert_eq!(base.cache_dir(), &unix_path("/var/cache/u"));
    assert_eq!(base.config_dir(), &unix_path("/etc/u"));
    assert_eq!(base.config_local_dir(), &unix_path("/etc/u"));
    assert_eq!(base.preference_dir(), &unix_path("/etc/u"));
    assert_eq!(base.data_dir(), &unix_path("/srv/u"));
    assert_eq!(base.data_local_dir(), &unix_path("/srv/u"));
    assert_eq!(base.state_dir(), Some(&unix_path("/var/lib/u")));
    assert_eq!(base.executable_dir(), Some(&unix_path("/opt/u/bin")));
    assert_eq!(base.runtime_dir(), Some(&unix_path("/run/user/1000")));
}

#[test]
fn a_relative_variable_is_passed_over() {
    let mut env = base_linux();
    env.cache_home = Some(unix_path("cache"));
    env.runtime_dir = Some(unix_path("run"));
    let base = resolve(&Environment::Linux(env)).unwrap();
    assert_eq!(base.cache_dir(), &unix_path("/home/u/.cache"));
    assert_eq!(base.runtime_dir(), None);
}

#[test]
fn the_home_directory_falls_back_in_order() {
    let mut env = base_linux();
    env.home = Some(unix_path("home/u"));
    env.home_fallback = Some(unix_path("/home/u"));
    assert_eq!(get_home(&Environment::Linux(env)).unwrap(), unix_path("/home/u"));

    let mut env = base_mac();
    env.home = None;
    env.home_fallback = Some(unix_path("relative"));
    env.native_home = Some(unix_path("/Users/u"));
    assert_eq!(get_home(&Environment::MacOs(env)).unwrap(), unix_path("/Users/u"));

    let mut folders = base_folders();
    folders.profile = Err(String::from("0x80070002"));
    let env = WindowsEnv { folders, user_profile: Some(windows_path("D:\\u")) };
    assert_eq!(get_home(&Environment::Windows(env)).unwrap(), windows_path("D:\\u"));
}

#[test]
fn no_home_directory_is_an_error() {
    let mut env = base_linux();
    env.home = None;
    let env = Environment::Linux(env);
    assert!(matches!(get_home(&env), Err(AreiaError::CantGetHomeDir)));
    assert!(matches!(BaseDirs::new(&env), Err(AreiaError::CantGetHomeDir)));

    let mut folders = base_folders();
    folders.profile = Err(String::from("0x80070002"));
    let env = Environment::Windows(WindowsEnv { folders, user_profile: None });
    assert!(matches!(BaseDirs::new(&env), Err(AreiaError::CantGetHomeDir)));
}

#[test]
fn a_failed_known_folder_fails_the_base_dirs() {
    let mut folders = base_folders();
    folders.roaming_app_data = Err(String::from("Failed to get RoamingAppData"));
    let env = Environment::Windows(WindowsEnv { folders, user_profile: None });
    match BaseDirs::new(&env) {
        Err(AreiaError::WindowsError(message)) => {
            assert_eq!(message, "Failed to get RoamingAppData")
        }
        other => panic!("unexpected: {:?}", other),
    }

    let mut folders = base_folders();
    folders.local_app_data = Ok(windows_path("AppData\\Local"));
    let env = Environment::Windows(WindowsEnv { folders, user_profile: None });
    match BaseDirs::new(&env) {
        Err(AreiaError::PathMustBeAbsolute(path)) => {
            assert_eq!(path, windows_path("AppData\\Local"))
        }
        other => panic!("unexpected: {:?}", other),
    }
}

#[test]
fn windows_base_dirs_are_the_known_folders() {
    let env = Environment::Windows(WindowsEnv { folders: base_folders(), user_profile: None });
    let base = BaseDirs::new(&env).unwrap();
    assert_eq!(base.home_dir(), &windows_path("C:\\Users\\u"));
    assert_eq!(base.cache_dir(), &windows_path("C:\\Users\\u\\AppData\\Local"));
    assert_eq!(base.config_dir(), &windows_path("C:\\Users\\u\\AppData\\Roaming"));
    assert_eq!(base.config_local_dir(), &windows_path("C:\\Users\\u\\AppData\\Local"));
    assert_eq!(base.data_dir(), &windows_path("C:\\Users\\u\\AppData\\Roaming"));
    assert_eq!(base.data_local_dir(), &windows_path("C:\\Users\\u\\AppData\\Local"));
    assert_eq!(base.preference_dir(), &windows_path("C:\\Users\\u\\AppData\\Roaming"));
}

#[test]
fn mac_base_dirs_lie_in_the_library() {
    let base = resolve(&Environment::MacOs(base_mac())).unwrap();
    assert_eq!(base.cache_dir(), &unix_path("/Users/u/Library/Caches"));
    assert_eq!(base.config_dir(), &unix_path("/Users/u/Library/Application Support"));
    assert_eq!(base.data_dir(), &unix_path("/Users/u/Library/Application Support"));
    assert_eq!(base.preference_dir(), &unix_path("/Users/u/Library/Preferences"));
}

#[test]
fn a_missing_directory_breaks_the_layout() {
    let mut env = base_linux();
    env.existing.pop();
    let env = Environment::Linux(env);
    assert!(!has_layout(&unix_path("/home/u"), &env));

    let mut env = base_mac();
    env.existing.remove(0);
    let env = Environment::MacOs(env);
    assert!(!has_layout(&unix_path("/Users/u"), &env));
}

#[test]
fn the_directories_to_look_for() {
    let dirs = conventional_dirs(&unix_path("/home/u"), Platform::Linux);
    assert_eq!(
        dirs,
        vec![
            unix_path("/home/u/.cache"),
            unix_path("/home/u/.config"),
            unix_path("/home/u/.local/share"),
            unix_path("/home/u/.local/state"),
            unix_path("/home/u/.local/bin"),
            unix_path("/home/u/.local/share/fonts"),
        ]
    );
    let dirs = conventional_dirs(&unix_path("/Users/u"), Platform::MacOs);
    assert_eq!(
        dirs,
        vec![
            unix_path("/Users/u/Library/Caches"),
            unix_path("/Users/u/Library/Application Support"),
            unix_path("/Users/u/Library/Preferences"),
            unix_path("/Users/u/Library/Fonts"),
        ]
    );
    assert!(conventional_dirs(&windows_path("C:\\Users\\u"), Platform::Windows).is_empty());
}

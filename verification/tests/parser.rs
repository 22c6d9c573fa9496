use areia::path::FilePath;
use areia::utils::factory::linux::{
    category, get_usr_dirs, parse_line, parse_xdg_dirs, split_once, trim_ascii, unescape,
    UserDirEntry, XdgCategory,
};
use areia::utils::platform::{LinuxEnv, Platform};

fn parser_path(text: &str) -> FilePath {
    FilePath::from_bytes(Platform::Linux, text.as_bytes())
}

fn placed(entry: &UserDirEntry) -> Option<&FilePath> {
    match entry {
        UserDirEntry::Location(path) => Some(path),
        _ => None,
    }
}

#[test]
fn xdg_user_dir_parsing() {
    let file = "XDG_DESKTOP_DIR=\"$HOME/Desktop\"
XDG_DOWNLOAD_DIR=\"$HOME/Downloads\"
XDG_TEMPLATES_DIR=\"$HOME/Templates\"
XDG_PUBLICSHARE_DIR=\"$HOME/Public\"
XDG_DOCUMENTS_DIR=\"$HOME/Documents\"
XDG_MUSIC_DIR=\"$HOME/Music\"
XDG_PICTURES_DIR=\"$HOME/Pictures\"
XDG_VIDEOS_DIR=\"$HOME/Videos\"
";
    let home_path = parser_path("/home/u");
    let env = LinuxEnv {
        home: Some(parser_path("/home/u")),
        home_fallback: None,
        cache_home: None,
        config_home: None,
        data_home: None,
        state_home: None,
        bin_home: None,
        runtime_dir: None,
        existing: vec![],
        user_dirs_file: Ok(file.as_bytes().to_vec()),
    };
    let dirs = get_usr_dirs(parser_path("/home/u"), &env).unwrap();

    assert_eq!(dirs.desktop.unwrap(), home_path.join(&parser_path("Desktop")));
    assert_eq!(dirs.documents.unwrap(), home_path.join(&parser_path("Documents")));
    assert_eq!(dirs.downloads.unwrap(), home_path.join(&parser_path("Downloads")));
    assert_eq!(dirs.music.unwrap(), home_path.join(&parser_path("Music")));
    assert_eq!(dirs.pictures.unwrap(), home_path.join(&parser_path("Pictures")));
    assert_eq!(dirs.public_share.unwrap(), home_path.join(&parser_path("Public")));
    assert_eq!(dirs.templates.unwrap(), home_path.join(&parser_path("Templates")));
    assert_eq!(dirs.videos.unwrap(), home_path.join(&parser_path("Videos")));
    assert!(dirs.fonts.is_none());
}

#[test]
fn a_home_relative_line_is_joined_to_the_home_directory() {
    let bytes = b"XDG_DESKTOP_DIR=\"$HOME/Desktop\"\n".to_vec();
    let entries = parse_xdg_dirs(bytes, parser_path("/home/u")).unwrap();
    assert_eq!(placed(&entries.desktop), Some(&parser_path("/home/u/Desktop")));
    assert!(matches!(entries.music, UserDirEntry::Unset));
    assert!(matches!(entries.documents, UserDirEntry::Unset));
}

#[test]
fn a_line_that_points_home_disables_the_category() {
    let bytes = b"XDG_MUSIC_DIR=\"$HOME/\"\n".to_vec();
    let entries = parse_xdg_dirs(bytes, parser_path("/home/u")).unwrap();
    assert!(matches!(entries.music, UserDirEntry::Disabled));
    assert!(entries.location(XdgCategory::Music).is_none());
}

#[test]
fn a_line_without_equals_is_passed_over() {
    let bytes = b"just some words\nXDG_VIDEOS_DIR=\"/srv/videos\"\n# a comment".to_vec();
    let result = parse_xdg_dirs(bytes, parser_path("/home/u"));
    assert!(result.is_ok());
    let entries = result.unwrap();
    assert_eq!(placed(&entries.videos), Some(&parser_path("/srv/videos")));
    assert!(matches!(entries.desktop, UserDirEntry::Unset));
}

#[test]
fn a_later_line_overrides_an_earlier_one() {
    let bytes = b"XDG_MUSIC_DIR=\"$HOME/Music\"\nXDG_MUSIC_DIR=\"/srv/music\"".to_vec();
    let entries = parse_xdg_dirs(bytes, parser_path("/home/u")).unwrap();
    assert_eq!(placed(&entries.music), Some(&parser_path("/srv/music")));

    let bytes = b"XDG_MUSIC_DIR=\"$HOME/Music\"\nXDG_MUSIC_DIR=\"$HOME/\"".to_vec();
    let entries = parse_xdg_dirs(bytes, parser_path("/home/u")).unwrap();
    assert!(matches!(entries.music, UserDirEntry::Disabled));
}

#[test]
fn malformed_lines_place_nothing() {
    let home = parser_path("/home/u");
    // no quotes
    assert!(parse_line(b"XDG_MUSIC_DIR=$HOME/Music", &home).is_none());
    // one quote only
    assert!(parse_line(b"XDG_MUSIC_DIR=\"", &home).is_none());
    assert!(parse_line(b"XDG_MUSIC_DIR=\"$HOME/Music", &home).is_none());
    // neither below home nor absolute
    assert!(parse_line(b"XDG_MUSIC_DIR=\"Music\"", &home).is_none());
    assert!(parse_line(b"XDG_MUSIC_DIR=\"$HOMEMusic\"", &home).is_none());
    assert!(parse_line(b"XDG_MUSIC_DIR=\"\"", &home).is_none());
    // not a key of the file
    assert!(parse_line(b"XDG_DIR=\"/srv\"", &home).is_none());
    assert!(parse_line(b"XDG_GAMES_DIR=\"/srv\"", &home).is_none());
    assert!(parse_line(b"MUSIC=\"/srv\"", &home).is_none());
    assert!(parse_line(b"xdg_music_dir=\"/srv\"", &home).is_none());
    assert!(parse_line(b"", &home).is_none());
}

#[test]
fn white_space_around_key_and_value_is_dropped() {
    let home = parser_path("/home/u");
    let parsed = parse_line(b"  XDG_PICTURES_DIR \t=  \"$HOME/Pictures\" \r", &home);
    let (category, placement) = parsed.unwrap();
    assert_eq!(category, XdgCategory::Pictures);
    assert_eq!(placement, Some(parser_path("/home/u/Pictures")));
}

#[test]
fn backslashes_are_dropped() {
    let home = parser_path("/home/u");
    let (_, placement) = parse_line(b"XDG_DOCUMENTS_DIR=\"$HOME/My\\ Documents\"", &home).unwrap();
    assert_eq!(placement.unwrap().to_bytes(), b"/home/u/My Documents".to_vec());
    let (_, placement) = parse_line(b"XDG_DOCUMENTS_DIR=\"/srv/a\\\\b\"", &home).unwrap();
    assert_eq!(placement.unwrap().to_bytes(), b"/srv/ab".to_vec());
    assert_eq!(unescape(b"\\a\\\\b\\"), b"ab".to_vec());
}

#[test]
fn an_absolute_remainder_replaces_the_home_directory() {
    let home = parser_path("/home/u");
    let (_, placement) = parse_line(b"XDG_DOCUMENTS_DIR=\"$HOME//srv/docs\"", &home).unwrap();
    assert_eq!(placement, Some(parser_path("/srv/docs")));
}

#[test]
fn the_value_may_hold_an_equals_sign() {
    let home = parser_path("/home/u");
    let (category, placement) = parse_line(b"XDG_DOWNLOAD_DIR=\"/srv/a=b\"", &home).unwrap();
    assert_eq!(category, XdgCategory::Download);
    assert_eq!(placement.unwrap().to_bytes(), b"/srv/a=b".to_vec());
}

#[test]
fn split_once_splits_at_the_first_separator() {
    let (left, right) = split_once(b"a=b=c", 61).unwrap();
    assert_eq!(left, b"a");
    assert_eq!(right, b"b=c");
    let (left, right) = split_once(b"=", 61).unwrap();
    assert_eq!(left, b"");
    assert_eq!(right, b"");
    assert!(split_once(b"abc", 61).is_none());
    assert!(split_once(b"", 61).is_none());
}

#[test]
fn trim_ascii_drops_white_space_at_both_ends() {
    assert_eq!(trim_ascii(b" \t a b \r\n"), b"a b");
    assert_eq!(trim_ascii(b"  \x0c "), b"");
    assert_eq!(trim_ascii(b""), b"");
    assert_eq!(trim_ascii(b"ab"), b"ab");
}

#[test]
fn each_key_names_its_category() {
    assert_eq!(category(b"XDG_DESKTOP_DIR"), Some(XdgCategory::Desktop));
    assert_eq!(category(b"XDG_DOCUMENTS_DIR"), Some(XdgCategory::Documents));
    assert_eq!(category(b"XDG_DOWNLOAD_DIR"), Some(XdgCategory::Download));
    assert_eq!(category(b"XDG_MUSIC_DIR"), Some(XdgCategory::Music));
    assert_eq!(category(b"XDG_PICTURES_DIR"), Some(XdgCategory::Pictures));
    assert_eq!(category(b"XDG_PUBLICSHARE_DIR"), Some(XdgCategory::PublicShare));
    assert_eq!(category(b"XDG_TEMPLATES_DIR"), Some(XdgCategory::Templates));
    assert_eq!(category(b"XDG_VIDEOS_DIR"), Some(XdgCategory::Videos));
    assert_eq!(category(b"XDG_VIDEOS_DIRS"), None);
}

#[test]
fn every_placement_is_absolute_under_an_absolute_home() {
    let bytes = b"XDG_MUSIC_DIR=\"$HOME/a\"\nXDG_VIDEOS_DIR=\"/b\"\nXDG_DESKTOP_DIR=\"$HOME/./c\"".to_vec();
    let entries = parse_xdg_dirs(bytes, parser_path("/home/u")).unwrap();
    assert!(placed(&entries.music).unwrap().is_absolute());
    assert!(placed(&entries.videos).unwrap().is_absolute());
    assert_eq!(placed(&entries.desktop), Some(&parser_path("/home/u/c")));
}

use maskerad_filesystem::filesystem_error::{FSErrorKind, VarError};
use maskerad_filesystem::game_directories::{join_path, GameDirectories, Platform, RootDir};

const ALL_ROOTS: [RootDir; 6] = [
    RootDir::WorkingDirectory,
    RootDir::UserDataRoot,
    RootDir::UserConfigRoot,
    RootDir::UserEngineConfigurationRoot,
    RootDir::UserLogRoot,
    RootDir::UserSaveRoot,
];

fn unix_dirs(name: &str) -> GameDirectories {
    GameDirectories::new(
        name,
        "Malkaviel",
        Platform::UnixLike,
        Ok(String::from("/home/player")),
        Ok(String::from("/work/project")),
    )
    .expect("Couldn't create GameDirs")
}

#[test]
fn unix_layout_of_every_root() {
    let dirs = unix_dirs("test_filesystem_maskerad");
    assert_eq!(dirs.path(RootDir::WorkingDirectory).unwrap(), "/work/project");
    assert_eq!(
        dirs.path(RootDir::UserConfigRoot).unwrap(),
        "/home/player/.config/test_filesystem_maskerad"
    );
    assert_eq!(
        dirs.path(RootDir::UserDataRoot).unwrap(),
        "/home/player/.local/share/test_filesystem_maskerad"
    );
    assert_eq!(
        dirs.path(RootDir::UserLogRoot).unwrap(),
        "/home/player/.config/test_filesystem_maskerad/maskerad_logs"
    );
    assert_eq!(
        dirs.path(RootDir::UserEngineConfigurationRoot).unwrap(),
        "/home/player/.config/test_filesystem_maskerad/maskerad_configuration"
    );
    assert_eq!(
        dirs.path(RootDir::UserSaveRoot).unwrap(),
        "/home/player/.local/share/test_filesystem_maskerad/game_saves"
    );
}

#[test]
fn every_root_is_absolute_and_not_empty() {
    let dirs = unix_dirs("test_filesystem_blacksmith");
    for root in ALL_ROOTS {
        let p = dirs.path(root).unwrap();
        assert!(!p.is_empty());
        assert!(p.starts_with('/'));
    }
}

#[test]
fn windows_layout_keeps_the_quote_separator() {
    let dirs = GameDirectories::new(
        "test_filesystem_maskerad",
        "Malkaviel",
        Platform::Windows,
        Ok(String::from("C:\\Users\\player\\AppData\\Roaming")),
        Ok(String::from("C:\\work")),
    )
    .unwrap();
    let base = "C:\\Users\\player\\AppData\\Roaming'Malkaviel'test_filesystem_maskerad";
    assert_eq!(dirs.path(RootDir::UserConfigRoot).unwrap(), base);
    assert_eq!(dirs.path(RootDir::UserDataRoot).unwrap(), base);
    assert_eq!(dirs.path(RootDir::UserLogRoot).unwrap(), format!("{}/maskerad_logs", base));
    assert_eq!(dirs.path(RootDir::UserSaveRoot).unwrap(), format!("{}/game_saves", base));
    assert_eq!(dirs.path(RootDir::WorkingDirectory).unwrap(), "C:\\work");
}

#[test]
fn empty_relative_path_gives_the_root() {
    let dirs = unix_dirs("test_filesystem_maskerad");
    for root in ALL_ROOTS {
        assert_eq!(dirs.construct_path_from_root(root, "").unwrap(), dirs.path(root).unwrap());
    }
}

#[test]
fn relative_paths_nest_under_the_root() {
    let dirs = unix_dirs("test_filesystem_maskerad");
    assert_eq!(
        dirs.construct_path_from_root(RootDir::WorkingDirectory, "dir_test").unwrap(),
        "/work/project/dir_test"
    );
    assert_eq!(
        dirs.construct_path_from_root(RootDir::UserLogRoot, "log_dir_test/file_test.txt").unwrap(),
        "/home/player/.config/test_filesystem_maskerad/maskerad_logs/log_dir_test/file_test.txt"
    );
    assert_eq!(
        dirs.construct_path_from_root(RootDir::WorkingDirectory, "src").unwrap(),
        "/work/project/src"
    );
}

#[test]
fn absolute_relative_path_replaces_the_root() {
    let dirs = unix_dirs("test_filesystem_maskerad");
    assert_eq!(
        dirs.construct_path_from_root(RootDir::UserSaveRoot, "/tmp/elsewhere").unwrap(),
        "/tmp/elsewhere"
    );
}

#[test]
fn join_adds_one_separator_only_where_needed() {
    assert_eq!(join_path("/a/b", "c"), "/a/b/c");
    assert_eq!(join_path("/a/b/", "c"), "/a/b/c");
    assert_eq!(join_path("", "c"), "c");
    assert_eq!(join_path("/a", ""), "/a");
    assert_eq!(join_path("/a", "/c"), "/c");
    assert_eq!(join_path("/a", "c/d"), "/a/c/d");
}

#[test]
fn missing_home_is_an_environment_error() {
    let r = GameDirectories::new(
        "test_filesystem_maskerad",
        "Malkaviel",
        Platform::UnixLike,
        Err(VarError::NotPresent),
        Ok(String::from("/work")),
    );
    let e = r.unwrap_err();
    match e.kind() {
        FSErrorKind::EnvironmentError(d, cause) => {
            assert_eq!(d, "Error while dealing with environment variable");
            assert_eq!(cause, &VarError::NotPresent);
        }
        other => panic!("unexpected error kind {:?}", other),
    }
    assert_eq!(e.kind().description(), "EnvironmentError");
}

#[test]
fn environment_error_comes_before_working_directory_error() {
    let r = GameDirectories::new(
        "game",
        "author",
        Platform::Windows,
        Err(VarError::NotUnicode(String::from("bad"))),
        Err(std::io::Error::new(std::io::ErrorKind::NotFound, "gone")),
    );
    match r.unwrap_err().kind() {
        FSErrorKind::EnvironmentError(_, cause) => {
            assert_eq!(cause, &VarError::NotUnicode(String::from("bad")))
        }
        other => panic!("unexpected error kind {:?}", other),
    }
}

#[test]
fn missing_working_directory_is_an_io_error() {
    let r = GameDirectories::new(
        "game",
        "author",
        Platform::UnixLike,
        Ok(String::from("/home/player")),
        Err(std::io::Error::new(std::io::ErrorKind::NotFound, "gone")),
    );
    match r.unwrap_err().kind() {
        FSErrorKind::IOError(d, cause) => {
            assert_eq!(d, "Error while doing I/O operations");
            assert_eq!(cause.kind(), std::io::ErrorKind::NotFound);
        }
        other => panic!("unexpected error kind {:?}", other),
    }
}

#[test]
fn base_variable_of_each_platform() {
    assert_eq!(Platform::UnixLike.base_variable(), Some("HOME"));
    assert_eq!(Platform::Windows.base_variable(), Some("APPDATA"));
    assert_eq!(Platform::MacOs.base_variable(), None);
}

#[test]
fn directories_given_one_by_one() {
    let dirs = GameDirectories::from_paths(
        String::from("/w"),
        String::from("/d"),
        String::from("/c"),
        String::from("/c/e"),
        String::from("/c/l"),
        String::from("/d/s"),
    );
    assert_eq!(dirs.path(RootDir::WorkingDirectory).unwrap(), "/w");
    assert_eq!(dirs.path(RootDir::UserDataRoot).unwrap(), "/d");
    assert_eq!(dirs.path(RootDir::UserConfigRoot).unwrap(), "/c");
    assert_eq!(dirs.path(RootDir::UserEngineConfigurationRoot).unwrap(), "/c/e");
    assert_eq!(dirs.path(RootDir::UserLogRoot).unwrap(), "/c/l");
    assert_eq!(dirs.path(RootDir::UserSaveRoot).unwrap(), "/d/s");
}

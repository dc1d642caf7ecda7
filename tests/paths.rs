use std::path::PathBuf;

use foreman_paths::paths::{OverrideWarning, PathKind};
use foreman_paths::ForemanPaths;

#[test]
fn root_dir() {
    let root = PathBuf::from("/foreman");
    let paths = ForemanPaths::new(String::from("/foreman"));

    assert_eq!(PathBuf::from(paths.root_dir()), root);
}

#[test]
fn tools_dir() {
    let mut directory = PathBuf::from("/foreman");
    let paths = ForemanPaths::new(String::from("/foreman"));
    directory.push("tools");

    assert_eq!(directory, PathBuf::from(paths.tools_dir()));
}

#[test]
fn bin_dir() {
    let mut directory = PathBuf::from("/foreman");
    let paths = ForemanPaths::new(String::from("/foreman"));
    directory.push("bin");

    assert_eq!(directory, PathBuf::from(paths.bin_dir()));
}

#[test]
fn auth_store() {
    let mut directory = PathBuf::from("/foreman");
    let paths = ForemanPaths::new(String::from("/foreman"));
    directory.push("auth.toml");

    assert_eq!(directory, PathBuf::from(paths.auth_store()));
}

#[test]
fn user_config() {
    let mut directory = PathBuf::from("/foreman");
    let paths = ForemanPaths::new(String::from("/foreman"));
    directory.push("foreman.toml");

    assert_eq!(directory, PathBuf::from(paths.user_config()));
}

#[test]
fn index_file() {
    let mut directory = PathBuf::from("/foreman");
    let paths = ForemanPaths::new(String::from("/foreman"));
    directory.push("tool-cache.json");

    assert_eq!(directory, PathBuf::from(paths.index_file()));
}

#[test]
fn derived_paths_are_root_and_suffix() {
    let paths = ForemanPaths::new(String::from("/home/u/.foreman"));
    assert_eq!(paths.tools_dir(), "/home/u/.foreman/tools");
    assert_eq!(paths.bin_dir(), "/home/u/.foreman/bin");
    assert_eq!(paths.auth_store(), "/home/u/.foreman/auth.toml");
    assert_eq!(paths.user_config(), "/home/u/.foreman/foreman.toml");
    assert_eq!(paths.index_file(), "/home/u/.foreman/tool-cache.json");
}

#[test]
fn root_with_trailing_separator_gets_no_second_one() {
    let paths = ForemanPaths::new(String::from("/foreman/"));
    assert_eq!(paths.bin_dir(), "/foreman/bin");
    let mut directory = PathBuf::from("/foreman/");
    directory.push("bin");
    assert_eq!(directory, PathBuf::from(paths.bin_dir()));
}

#[test]
fn empty_root_gives_bare_suffix() {
    let paths = ForemanPaths::new(String::new());
    assert_eq!(paths.tools_dir(), "tools");
}

#[test]
fn from_home_appends_dot_foreman() {
    let paths = ForemanPaths::from_home(String::from("/home/alice"));
    assert_eq!(paths.root_dir(), "/home/alice/.foreman");
    assert_eq!(paths.tools_dir(), "/home/alice/.foreman/tools");
}

#[test]
fn default_root_lies_below_a_home_directory() {
    if let Ok(paths) = ForemanPaths::default_root() {
        assert!(paths.root_dir().ends_with("/.foreman") || paths.root_dir().ends_with("\\.foreman"));
    }
}

#[test]
fn override_unset_gives_nothing() {
    let (found, warning) = ForemanPaths::from_override(None, PathKind::Directory);
    assert_eq!(found, None);
    assert_eq!(warning, None);
}

#[test]
fn override_directory_is_taken() {
    let (found, warning) = ForemanPaths::from_override(Some(String::from("/opt/fm")), PathKind::Directory);
    assert_eq!(found.map(|p| p.root_dir()), Some(String::from("/opt/fm")));
    assert_eq!(warning, None);
}

#[test]
fn override_missing_warns() {
    let (found, warning) = ForemanPaths::from_override(Some(String::from("/nope")), PathKind::Missing);
    assert_eq!(found, None);
    assert_eq!(warning, Some(OverrideWarning::DoesNotExist { path: String::from("/nope") }));
}

#[test]
fn override_not_a_directory_warns() {
    let (found, warning) = ForemanPaths::from_override(Some(String::from("/etc/passwd")), PathKind::Other);
    assert_eq!(found, None);
    assert_eq!(warning, Some(OverrideWarning::NotADirectory { path: String::from("/etc/passwd") }));
}

#[test]
fn resolve_prefers_valid_override() {
    let default = ForemanPaths::from_home(String::from("/home/bob"));
    let (paths, warning) = ForemanPaths::resolve(Some(String::from("/srv/fm")), PathKind::Directory, default);
    assert_eq!(paths.root_dir(), "/srv/fm");
    assert_eq!(warning, None);
}

#[test]
fn resolve_falls_back_to_default() {
    let default = ForemanPaths::from_home(String::from("/home/bob"));
    let (paths, warning) = ForemanPaths::resolve(None, PathKind::Missing, default.clone());
    assert_eq!(paths.root_dir(), "/home/bob/.foreman");
    assert_eq!(warning, None);

    let (paths, warning) = ForemanPaths::resolve(Some(String::from("/srv/none")), PathKind::Missing, default.clone());
    assert_eq!(paths.root_dir(), "/home/bob/.foreman");
    assert_eq!(warning, Some(OverrideWarning::DoesNotExist { path: String::from("/srv/none") }));

    let (paths, warning) = ForemanPaths::resolve(Some(String::from("/srv/file")), PathKind::Other, default);
    assert_eq!(paths.root_dir(), "/home/bob/.foreman");
    assert_eq!(warning, Some(OverrideWarning::NotADirectory { path: String::from("/srv/file") }));
}

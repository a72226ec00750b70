use std::path::PathBuf;
use sway_settings::config::{
    config_file_name, config_target, config_target_under, locate, resolve_directory,
    BaseDirectory, ConfigError, CONFIGURATION_DIRECTORY, EXTENSION,
};

#[test]
fn fragments_are_kept_below_the_home_directory() {
    let home = PathBuf::from("/home/alice");
    let target = config_target_under(Some(home.clone()), "10-keyboard").unwrap();
    assert_eq!(target.base, Some(home));
    assert_eq!(target.directory, ".config/sway/config.d");
    assert_eq!(target.file_name, "10-keyboard.conf");
}

#[test]
fn fragments_need_a_home_directory() {
    match config_target_under(None, "10-keyboard") {
        Err(error) => {
            assert_eq!(error, ConfigError::HomeNotFound);
            assert_eq!(error.message(), "Could not find home directory");
        }
        Ok(_) => panic!("the configuration directory begins at home"),
    }
}

#[test]
fn test_save_sway_config() {
    let test_filename = "test-config";

    let result = config_target(test_filename);

    // Whether there is a home directory depends on where the test runs.
    assert!(result.is_ok() || result.is_err());
    match result {
        Ok(target) => {
            assert!(target.base.is_some());
            assert_eq!(target.directory, ".config/sway/config.d");
            assert_eq!(target.file_name, "test-config.conf");
        }
        Err(error) => assert_eq!(error, ConfigError::HomeNotFound),
    }
}

#[test]
fn fragment_file_takes_the_extension() {
    assert_eq!(config_file_name("test-config"), "test-config.conf");
    assert_eq!(config_file_name(""), ".conf");
    assert_eq!(config_file_name("a.conf"), "a.conf.conf");
    assert_eq!(EXTENSION, ".conf");
}

#[test]
fn configuration_directory_is_fixed() {
    assert_eq!(CONFIGURATION_DIRECTORY, "~/.config/sway/config.d");
}

#[test]
fn resolve_directory_takes_the_home_sign_off() {
    match resolve_directory("~/.config/sway/config.d") {
        BaseDirectory::UnderHome(path) => assert_eq!(path, ".config/sway/config.d"),
        BaseDirectory::Fixed(_) => panic!("a path with the sign begins at home"),
    }
    match resolve_directory("~/") {
        BaseDirectory::UnderHome(path) => assert_eq!(path, ""),
        BaseDirectory::Fixed(_) => panic!("a path with the sign begins at home"),
    }
    match resolve_directory("~") {
        BaseDirectory::UnderHome(path) => assert_eq!(path, ""),
        BaseDirectory::Fixed(_) => panic!("a path with the sign begins at home"),
    }
}

#[test]
fn resolve_directory_keeps_a_path_without_the_home_sign() {
    match resolve_directory("/etc/sway/config.d") {
        BaseDirectory::Fixed(path) => assert_eq!(path, "/etc/sway/config.d"),
        BaseDirectory::UnderHome(_) => panic!("a path without the sign stands as it is"),
    }
    match resolve_directory("") {
        BaseDirectory::Fixed(path) => assert_eq!(path, ""),
        BaseDirectory::UnderHome(_) => panic!("a path without the sign stands as it is"),
    }
    match resolve_directory("etc/~/x") {
        BaseDirectory::Fixed(path) => assert_eq!(path, "etc/~/x"),
        BaseDirectory::UnderHome(_) => panic!("a path without the sign stands as it is"),
    }
}

#[test]
fn locate_needs_a_home_only_below_it() {
    let fixed = locate(BaseDirectory::Fixed("/etc/sway".to_string()), None, "a").unwrap();
    assert_eq!(fixed.base, None);
    assert_eq!(fixed.directory, "/etc/sway");
    assert_eq!(fixed.file_name, "a.conf");
    let home = PathBuf::from("/root");
    let fixed =
        locate(BaseDirectory::Fixed("/etc/sway".to_string()), Some(home.clone()), "a").unwrap();
    assert_eq!(fixed.base, None);
    let below =
        locate(BaseDirectory::UnderHome("sway".to_string()), Some(home.clone()), "b").unwrap();
    assert_eq!(below.base, Some(home));
    assert_eq!(below.directory, "sway");
    assert_eq!(below.file_name, "b.conf");
    assert!(matches!(
        locate(BaseDirectory::UnderHome("sway".to_string()), None, "b"),
        Err(ConfigError::HomeNotFound)
    ));
}

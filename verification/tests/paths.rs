use account_store::error::StoreFailure;
use account_store::paths::{
    accounts_file_in, config_dir_in, get_accounts_file, get_config_dir, get_settings_file,
    settings_file_in,
};
use std::path::PathBuf;

#[test]
fn files_lie_in_the_config_directory() {
    let home = PathBuf::from("/home/me");
    let directory = config_dir_in(Some(home.clone())).unwrap();
    assert_eq!(directory, PathBuf::from("/home/me/.codex-switcher"));
    let accounts = accounts_file_in(Some(home.clone())).unwrap();
    assert_eq!(accounts, PathBuf::from("/home/me/.codex-switcher/accounts.json"));
    let settings = settings_file_in(Some(home)).unwrap();
    assert_eq!(settings, PathBuf::from("/home/me/.codex-switcher/settings.json"));
    assert_eq!(accounts.parent(), Some(directory.as_path()));
    assert_eq!(settings.parent(), Some(directory.as_path()));
    assert_ne!(accounts, settings);
}

#[test]
fn names_are_joined_to_any_home() {
    for home in ["", ".", "/", "/home/me/", "/home//me/.", "relative"] {
        let home = PathBuf::from(home);
        let directory = config_dir_in(Some(home.clone())).unwrap();
        assert_eq!(directory, home.join(".codex-switcher"));
        let accounts = accounts_file_in(Some(home.clone())).unwrap();
        assert_eq!(accounts, directory.join("accounts.json"));
        assert!(accounts.as_os_str().as_encoded_bytes().ends_with(b"accounts.json"));
        let settings = settings_file_in(Some(home)).unwrap();
        assert_eq!(settings, directory.join("settings.json"));
        assert!(settings.as_os_str().as_encoded_bytes().ends_with(b"settings.json"));
        assert_ne!(accounts, settings);
    }
}

#[test]
fn without_a_home_there_is_no_path() {
    let error = config_dir_in(None).unwrap_err();
    assert!(matches!(error, StoreFailure::NoHomeDirectory));
    assert_eq!(error.message(), "Could not find home directory");
    assert!(matches!(accounts_file_in(None), Err(StoreFailure::NoHomeDirectory)));
    assert!(matches!(settings_file_in(None), Err(StoreFailure::NoHomeDirectory)));
}

#[test]
fn the_home_directory_is_that_of_the_user() {
    match dirs::home_dir() {
        Some(home) => {
            assert_eq!(get_config_dir().unwrap(), home.join(".codex-switcher"));
            assert_eq!(
                get_accounts_file().unwrap(),
                home.join(".codex-switcher").join("accounts.json")
            );
            assert_eq!(
                get_settings_file().unwrap(),
                home.join(".codex-switcher").join("settings.json")
            );
        }
        None => assert!(get_config_dir().is_err()),
    }
}

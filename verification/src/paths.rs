//! Where the files of the store lie.

use crate::error::{ErrorView, StoreError, StoreFailure};
use std::path::PathBuf;
use vstd::prelude::*;

verus! {

/// The directory that holds the files, in the home directory.
pub const CONFIG_DIR: &'static str = ".codex-switcher";

/// The file that holds the accounts.
pub const ACCOUNTS_FILE: &'static str = "accounts.json";

/// The file that holds the settings.
pub const SETTINGS_FILE: &'static str = "settings.json";

/// `std::path::PathBuf`, as a value that is carried through.
#[verifier::external_type_specification]
#[verifier::external_body]
pub struct ExPathBuf(PathBuf);

/// The path that `std::path::Path::join` makes of a directory and a name.
pub uninterp spec fn joined_path(directory: PathBuf, name: Seq<char>) -> PathBuf;

/// The bytes of a path as `std::ffi::OsStr::as_encoded_bytes` gives them.
pub uninterp spec fn path_bytes(path: PathBuf) -> Seq<u8>;

/// A name of an entry of a directory: not empty, neither `.` nor `..`, and without
/// a separator or a drive mark.
pub open spec fn is_file_name(name: Seq<char>) -> bool {
    &&& name.len() > 0
    &&& name != seq!['.']
    &&& name != seq!['.', '.']
    &&& !name.contains('/')
    &&& !name.contains('\\')
    &&& !name.contains(':')
}

/// `bytes` end in `tail`.
pub open spec fn ends_in(bytes: Seq<u8>, tail: Seq<u8>) -> bool {
    &&& tail.len() <= bytes.len()
    &&& bytes.skip(bytes.len() - tail.len()) == tail
}

/// The path of an entry of a directory, from `std::path::Path::join`.
///
/// The contract claims that the path depends on the directory and the name alone,
/// and that it ends in the name: `join` puts a relative name behind the directory,
/// with a separator where one is missing. How the components of the path relate to
/// those of the directory differs between platforms, and is left unsaid.
#[verifier::external_body]
fn path_join(directory: &PathBuf, name: &str) -> (path: PathBuf)
    requires
        is_file_name(name@),
    ensures
        path == joined_path(*directory, name@),
        ends_in(path_bytes(path), vstd::utf8::encode_utf8(name@)),
{
    directory.join(name)
}

/// The home directory of the user, from `dirs::home_dir`.
///
/// The contract claims nothing of it: it depends on the environment and on the
/// user database of the system.
#[verifier::external_body]
fn home_dir() -> (home: Option<PathBuf>) {
    dirs::home_dir()
}

/// `home` is what asking for the home directory of the user returned.
pub closed spec fn is_home_reading(home: Option<PathBuf>) -> bool {
    call_ensures(home_dir, (), home)
}

/// What is taken for the home directory is what [`home_dir`] returned, and nothing
/// else.
proof fn law_home_comes_from_the_system(home: Option<PathBuf>)
    ensures
        is_home_reading(home) <==> call_ensures(home_dir, (), home),
{
}

/// `path` is the entry `name` of the directory.
pub open spec fn is_entry_of(path: PathBuf, directory: PathBuf, name: Seq<char>) -> bool {
    &&& path == joined_path(directory, name)
    &&& ends_in(path_bytes(path), vstd::utf8::encode_utf8(name))
}

/// `result` is the config directory of a user with this home directory.
pub open spec fn is_config_dir(home: Option<PathBuf>, result: Result<PathBuf, StoreError>) -> bool {
    match home {
        Some(home) => result matches Ok(path) && is_entry_of(path, home, CONFIG_DIR@),
        None => result matches Err(e) && e@ == ErrorView::NoHomeDirectory,
    }
}

/// `result` is the file `name` in the config directory of a user with this home
/// directory.
pub open spec fn is_config_file(
    home: Option<PathBuf>,
    name: Seq<char>,
    result: Result<PathBuf, StoreError>,
) -> bool {
    match home {
        Some(home) => {
            &&& result matches Ok(path)
            &&& is_entry_of(path, joined_path(home, CONFIG_DIR@), name)
        },
        None => result matches Err(e) && e@ == ErrorView::NoHomeDirectory,
    }
}

/// The config directory of a user with this home directory.
pub fn config_dir_in(home: Option<PathBuf>) -> (result: Result<PathBuf, StoreError>)
    ensures
        is_config_dir(home, result),
{
    match home {
        Some(home) => {
            proof {
                reveal_strlit(".codex-switcher");
            }
            Ok(path_join(&home, CONFIG_DIR))
        },
        None => Err(StoreFailure::NoHomeDirectory),
    }
}

/// The accounts file of a user with this home directory.
pub fn accounts_file_in(home: Option<PathBuf>) -> (result: Result<PathBuf, StoreError>)
    ensures
        is_config_file(home, ACCOUNTS_FILE@, result),
{
    match config_dir_in(home) {
        Ok(directory) => {
            proof {
                reveal_strlit("accounts.json");
            }
            Ok(path_join(&directory, ACCOUNTS_FILE))
        },
        Err(error) => Err(error),
    }
}

/// The settings file of a user with this home directory.
pub fn settings_file_in(home: Option<PathBuf>) -> (result: Result<PathBuf, StoreError>)
    ensures
        is_config_file(home, SETTINGS_FILE@, result),
{
    match config_dir_in(home) {
        Ok(directory) => {
            proof {
                reveal_strlit("settings.json");
            }
            Ok(path_join(&directory, SETTINGS_FILE))
        },
        Err(error) => Err(error),
    }
}

/// Get the path to the codex-switcher config directory.
pub fn get_config_dir() -> (result: Result<PathBuf, StoreError>)
    ensures
        exists|home: Option<PathBuf>| is_home_reading(home) && is_config_dir(home, result),
{
    let home = home_dir();
    proof {
        law_home_comes_from_the_system(home);
    }
    config_dir_in(home)
}

/// Get the path to accounts.json.
pub fn get_accounts_file() -> (result: Result<PathBuf, StoreError>)
    ensures
        exists|home: Option<PathBuf>|
            is_home_reading(home) && is_config_file(home, ACCOUNTS_FILE@, result),
{
    let home = home_dir();
    proof {
        law_home_comes_from_the_system(home);
    }
    accounts_file_in(home)
}

/// Get the path to settings.json.
pub fn get_settings_file() -> (result: Result<PathBuf, StoreError>)
    ensures
        exists|home: Option<PathBuf>|
            is_home_reading(home) && is_config_file(home, SETTINGS_FILE@, result),
{
    let home = home_dir();
    proof {
        law_home_comes_from_the_system(home);
    }
    settings_file_in(home)
}

} // verus!

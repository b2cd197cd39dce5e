//! How the files of the store are read and replaced: which step comes next,
//! and what its failure is reported as. The steps themselves are file I/O, which
//! the caller performs.

use crate::error;
use crate::error::{ErrorView, StepFailure, StoreError, StoreFailure};
use crate::types;
use crate::types::AccountsStore;
use vstd::prelude::*;

verus! {

/// The permission bits of a file that only its owner may read and write.
pub const PRIVATE_FILE_MODE: u32 = 0o600;

/// What was found where a file is kept.
#[derive(Debug)]
pub enum FileLoad<Content, E> {
    /// There is no file.
    Missing,
    /// The file cannot be read.
    Unreadable(E),
    /// The file was read and does not parse.
    Malformed(E),
    /// What the file holds.
    Parsed(Content),
}

/// `result` is what reading the store from `file` at `path` gives.
pub open spec fn is_store_read<E>(
    path: Seq<char>,
    file: FileLoad<AccountsStore, E>,
    result: Result<AccountsStore, StepFailure<E>>,
) -> bool {
    match file {
        FileLoad::Missing => result matches Ok(store) && store@ == types::empty_store(),
        FileLoad::Unreadable(cause) => {
            &&& result matches Err(e)
            &&& error::is_step_failure(e, Some(ErrorView::ReadAccounts(path)), cause)
        },
        FileLoad::Malformed(cause) => {
            &&& result matches Err(e)
            &&& error::is_step_failure(e, Some(ErrorView::ParseAccounts(path)), cause)
        },
        FileLoad::Parsed(store) => result == Ok::<AccountsStore, StepFailure<E>>(store),
    }
}

/// The store that the accounts file holds, or an empty one where there is no
/// file.
pub fn read_store<E>(path: &str, file: FileLoad<AccountsStore, E>) -> (result: Result<
    AccountsStore,
    StepFailure<E>,
>)
    ensures
        is_store_read(path@, file, result),
{
    match file {
        FileLoad::Missing => Ok(AccountsStore::default()),
        FileLoad::Unreadable(cause) => Err(
            StepFailure { context: Some(StoreFailure::ReadAccounts(path.to_string())), cause },
        ),
        FileLoad::Malformed(cause) => Err(
            StepFailure { context: Some(StoreFailure::ParseAccounts(path.to_string())), cause },
        ),
        FileLoad::Parsed(store) => Ok(store),
    }
}

/// `result` is what reading the settings from `file` at `path` gives.
pub open spec fn is_settings_read<Settings, E>(
    path: Seq<char>,
    file: FileLoad<Settings, E>,
    defaults: Settings,
    result: Result<Settings, StepFailure<E>>,
) -> bool {
    match file {
        FileLoad::Missing => result == Ok::<Settings, StepFailure<E>>(defaults),
        FileLoad::Unreadable(cause) => {
            &&& result matches Err(e)
            &&& error::is_step_failure(e, Some(ErrorView::ReadSettings(path)), cause)
        },
        FileLoad::Malformed(cause) => {
            &&& result matches Err(e)
            &&& error::is_step_failure(e, Some(ErrorView::ParseSettings(path)), cause)
        },
        FileLoad::Parsed(settings) => result == Ok::<Settings, StepFailure<E>>(settings),
    }
}

/// The settings that the settings file holds, or the default ones where there is
/// no file.
pub fn load_app_settings<Settings, E>(
    path: &str,
    file: FileLoad<Settings, E>,
    defaults: Settings,
) -> (result: Result<Settings, StepFailure<E>>)
    ensures
        is_settings_read(path@, file, defaults, result),
{
    match file {
        FileLoad::Missing => Ok(defaults),
        FileLoad::Unreadable(cause) => Err(
            StepFailure { context: Some(StoreFailure::ReadSettings(path.to_string())), cause },
        ),
        FileLoad::Malformed(cause) => Err(
            StepFailure { context: Some(StoreFailure::ParseSettings(path.to_string())), cause },
        ),
        FileLoad::Parsed(settings) => Ok(settings),
    }
}

/// A step in replacing the accounts file.
#[derive(Clone, Copy, Debug, PartialEq, Eq, Structural)]
pub enum WriteStep {
    /// Create the directory of the file, and those above it.
    CreateDirectory,
    /// Turn the store into the bytes of the file.
    Serialize,
    /// Create a temporary file in the directory.
    CreateTemporary,
    /// Let only the owner read and write the temporary file.
    RestrictTemporary,
    /// Write the bytes to the temporary file.
    WriteTemporary,
    /// Force the temporary file to the disk.
    SyncTemporary,
    /// Put the temporary file in the place of the accounts file.
    Replace,
    /// Force the directory to the disk.
    SyncDirectory,
    /// Nothing is left to do.
    Done,
}

/// The step after one that succeeded. Only Unix has permission bits to set and
/// directories to sync.
pub open spec fn write_step_after(step: WriteStep, unix: bool) -> WriteStep {
    match step {
        WriteStep::CreateDirectory => WriteStep::Serialize,
        WriteStep::Serialize => WriteStep::CreateTemporary,
        WriteStep::CreateTemporary => if unix {
            WriteStep::RestrictTemporary
        } else {
            WriteStep::WriteTemporary
        },
        WriteStep::RestrictTemporary => WriteStep::WriteTemporary,
        WriteStep::WriteTemporary => WriteStep::SyncTemporary,
        WriteStep::SyncTemporary => WriteStep::Replace,
        WriteStep::Replace => if unix {
            WriteStep::SyncDirectory
        } else {
            WriteStep::Done
        },
        WriteStep::SyncDirectory => WriteStep::Done,
        WriteStep::Done => WriteStep::Done,
    }
}

/// What the failure of a step is reported as. The others are reported as they
/// came.
pub open spec fn write_context(
    step: WriteStep,
    parent: Seq<char>,
    path: Seq<char>,
) -> Option<ErrorView> {
    match step {
        WriteStep::CreateDirectory => Some(ErrorView::CreateDirectory(parent)),
        WriteStep::Serialize => Some(ErrorView::SerializeAccounts),
        WriteStep::CreateTemporary => Some(ErrorView::CreateTemporary(parent)),
        WriteStep::Replace => Some(ErrorView::ReplaceAccounts(path)),
        _ => None,
    }
}

/// The step that a write of the accounts file starts with.
pub fn first_write_step(has_parent: bool) -> (result: Result<WriteStep, StoreError>)
    ensures
        if has_parent {
            result == Ok::<WriteStep, StoreError>(WriteStep::CreateDirectory)
        } else {
            result matches Err(e) && e@ == ErrorView::NoParentDirectory
        },
{
    if has_parent {
        Ok(WriteStep::CreateDirectory)
    } else {
        Err(StoreFailure::NoParentDirectory)
    }
}

/// The step that follows one with this outcome, when the accounts file at `path`
/// in the directory `parent` is written.
pub fn next_write_step<E>(
    step: WriteStep,
    unix: bool,
    parent: &str,
    path: &str,
    outcome: Result<(), E>,
) -> (result: Result<WriteStep, StepFailure<E>>)
    ensures
        match outcome {
            Ok(()) => result == Ok::<WriteStep, StepFailure<E>>(write_step_after(step, unix)),
            Err(cause) => {
                &&& result matches Err(e)
                &&& error::is_step_failure(e, write_context(step, parent@, path@), cause)
            },
        },
{
    match outcome {
        Ok(()) => Ok(
            match step {
                WriteStep::CreateDirectory => WriteStep::Serialize,
                WriteStep::Serialize => WriteStep::CreateTemporary,
                WriteStep::CreateTemporary => if unix {
                    WriteStep::RestrictTemporary
                } else {
                    WriteStep::WriteTemporary
                },
                WriteStep::RestrictTemporary => WriteStep::WriteTemporary,
                WriteStep::WriteTemporary => WriteStep::SyncTemporary,
                WriteStep::SyncTemporary => WriteStep::Replace,
                WriteStep::Replace => if unix {
                    WriteStep::SyncDirectory
                } else {
                    WriteStep::Done
                },
                WriteStep::SyncDirectory => WriteStep::Done,
                WriteStep::Done => WriteStep::Done,
            },
        ),
        Err(cause) => {
            let context = match step {
                WriteStep::CreateDirectory => Some(
                    StoreFailure::CreateDirectory(parent.to_string()),
                ),
                WriteStep::Serialize => Some(StoreFailure::SerializeAccounts),
                WriteStep::CreateTemporary => Some(
                    StoreFailure::CreateTemporary(parent.to_string()),
                ),
                WriteStep::Replace => Some(StoreFailure::ReplaceAccounts(path.to_string())),
                _ => None,
            };
            Err(StepFailure { context, cause })
        },
    }
}

/// A step in saving the settings file.
#[derive(Clone, Copy, Debug, PartialEq, Eq, Structural)]
pub enum SaveStep {
    /// Create the directory of the file, and those above it.
    CreateDirectory,
    /// Turn the settings into the text of the file.
    Serialize,
    /// Write the file.
    Write,
    /// Let only the owner read and write the file.
    Restrict,
    /// Nothing is left to do.
    Done,
}

/// The first step: there may be no directory to create.
pub open spec fn save_step_first(has_parent: bool) -> SaveStep {
    if has_parent {
        SaveStep::CreateDirectory
    } else {
        SaveStep::Serialize
    }
}

/// The step after one that succeeded. Only Unix has permission bits to set.
pub open spec fn save_step_after(step: SaveStep, unix: bool) -> SaveStep {
    match step {
        SaveStep::CreateDirectory => SaveStep::Serialize,
        SaveStep::Serialize => SaveStep::Write,
        SaveStep::Write => if unix {
            SaveStep::Restrict
        } else {
            SaveStep::Done
        },
        SaveStep::Restrict => SaveStep::Done,
        SaveStep::Done => SaveStep::Done,
    }
}

/// What the failure of a step is reported as. The others are reported as they
/// came.
pub open spec fn save_context(
    step: SaveStep,
    parent: Seq<char>,
    path: Seq<char>,
) -> Option<ErrorView> {
    match step {
        SaveStep::CreateDirectory => Some(ErrorView::CreateDirectory(parent)),
        SaveStep::Serialize => Some(ErrorView::SerializeSettings),
        SaveStep::Write => Some(ErrorView::WriteSettings(path)),
        _ => None,
    }
}

/// The step that saving the settings starts with: there may be no directory to
/// create.
pub fn first_save_step(has_parent: bool) -> (step: SaveStep)
    ensures
        step == save_step_first(has_parent),
{
    if has_parent {
        SaveStep::CreateDirectory
    } else {
        SaveStep::Serialize
    }
}

/// The step that follows one with this outcome, when the settings file at `path`
/// in the directory `parent` is saved.
pub fn next_save_step<E>(
    step: SaveStep,
    unix: bool,
    parent: &str,
    path: &str,
    outcome: Result<(), E>,
) -> (result: Result<SaveStep, StepFailure<E>>)
    ensures
        match outcome {
            Ok(()) => result == Ok::<SaveStep, StepFailure<E>>(save_step_after(step, unix)),
            Err(cause) => {
                &&& result matches Err(e)
                &&& error::is_step_failure(e, save_context(step, parent@, path@), cause)
            },
        },
{
    match outcome {
        Ok(()) => Ok(
            match step {
                SaveStep::CreateDirectory => SaveStep::Serialize,
                SaveStep::Serialize => SaveStep::Write,
                SaveStep::Write => if unix {
                    SaveStep::Restrict
                } else {
                    SaveStep::Done
                },
                SaveStep::Restrict => SaveStep::Done,
                SaveStep::Done => SaveStep::Done,
            },
        ),
        Err(cause) => {
            let context = match step {
                SaveStep::CreateDirectory => Some(
                    StoreFailure::CreateDirectory(parent.to_string()),
                ),
                SaveStep::Serialize => Some(StoreFailure::SerializeSettings),
                SaveStep::Write => Some(StoreFailure::WriteSettings(path.to_string())),
                _ => None,
            };
            Err(StepFailure { context, cause })
        },
    }
}

} // verus!

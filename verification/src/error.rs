//! What can go wrong, and the message that says so.

use vstd::prelude::*;

verus! {

/// A failure that the store itself reports, with the text that it names.
#[derive(Debug)]
pub enum StoreFailure<Text> {
    NoHomeDirectory,
    NotInitialized,
    AlreadyInitialized,
    /// The snapshot lock is poisoned: what the lock reported.
    SnapshotPoisoned(Text),
    WorkerNotStarted,
    UpdateNotAdmitted,
    UpdateDropped,
    WorkerStoppedBeforeShutdown,
    WorkerPanicked,
    /// Another account has this name.
    NameTaken(Text),
    /// No account has this id.
    AccountNotFound(Text),
    /// No account has the id that was asked for.
    AccountMissing,
    /// OAuth tokens were offered for an account that has none.
    ApiKeyAccount,
    NoParentDirectory,
    /// The accounts file at this path cannot be read.
    ReadAccounts(Text),
    /// The accounts file at this path does not parse.
    ParseAccounts(Text),
    /// The settings file at this path cannot be read.
    ReadSettings(Text),
    /// The settings file at this path does not parse.
    ParseSettings(Text),
    /// This directory cannot be created.
    CreateDirectory(Text),
    SerializeAccounts,
    SerializeSettings,
    /// No temporary file can be created in this directory.
    CreateTemporary(Text),
    /// The accounts file at this path cannot be replaced.
    ReplaceAccounts(Text),
    /// The settings file at this path cannot be written.
    WriteSettings(Text),
}

pub type StoreError = StoreFailure<String>;

/// The view of [`StoreError`].
pub type ErrorView = StoreFailure<Seq<char>>;

/// A failure of the store, or one that outside work reported and that is
/// passed on as it came.
#[derive(Debug)]
pub enum Failure<E> {
    Store(StoreError),
    Outside(E),
}

/// A failure of outside work, and what the store was about when it came.
#[derive(Debug)]
pub struct StepFailure<E> {
    pub context: Option<StoreError>,
    pub cause: E,
}

impl View for StoreFailure<String> {
    type V = ErrorView;

    open spec fn view(&self) -> ErrorView {
        match *self {
            StoreFailure::NoHomeDirectory => StoreFailure::NoHomeDirectory,
            StoreFailure::NotInitialized => StoreFailure::NotInitialized,
            StoreFailure::AlreadyInitialized => StoreFailure::AlreadyInitialized,
            StoreFailure::SnapshotPoisoned(s) => StoreFailure::SnapshotPoisoned(s@),
            StoreFailure::WorkerNotStarted => StoreFailure::WorkerNotStarted,
            StoreFailure::UpdateNotAdmitted => StoreFailure::UpdateNotAdmitted,
            StoreFailure::UpdateDropped => StoreFailure::UpdateDropped,
            StoreFailure::WorkerStoppedBeforeShutdown => StoreFailure::WorkerStoppedBeforeShutdown,
            StoreFailure::WorkerPanicked => StoreFailure::WorkerPanicked,
            StoreFailure::NameTaken(s) => StoreFailure::NameTaken(s@),
            StoreFailure::AccountNotFound(s) => StoreFailure::AccountNotFound(s@),
            StoreFailure::AccountMissing => StoreFailure::AccountMissing,
            StoreFailure::ApiKeyAccount => StoreFailure::ApiKeyAccount,
            StoreFailure::NoParentDirectory => StoreFailure::NoParentDirectory,
            StoreFailure::ReadAccounts(s) => StoreFailure::ReadAccounts(s@),
            StoreFailure::ParseAccounts(s) => StoreFailure::ParseAccounts(s@),
            StoreFailure::ReadSettings(s) => StoreFailure::ReadSettings(s@),
            StoreFailure::ParseSettings(s) => StoreFailure::ParseSettings(s@),
            StoreFailure::CreateDirectory(s) => StoreFailure::CreateDirectory(s@),
            StoreFailure::SerializeAccounts => StoreFailure::SerializeAccounts,
            StoreFailure::SerializeSettings => StoreFailure::SerializeSettings,
            StoreFailure::CreateTemporary(s) => StoreFailure::CreateTemporary(s@),
            StoreFailure::ReplaceAccounts(s) => StoreFailure::ReplaceAccounts(s@),
            StoreFailure::WriteSettings(s) => StoreFailure::WriteSettings(s@),
        }
    }
}

/// `failure` reports `cause` in the context `context`.
pub open spec fn is_step_failure<E>(
    failure: StepFailure<E>,
    context: Option<ErrorView>,
    cause: E,
) -> bool {
    &&& failure.cause == cause
    &&& match failure.context {
        Some(e) => context == Some(e@),
        None => context is None,
    }
}

/// The message of a failure.
pub open spec fn message_of(error: ErrorView) -> Seq<char> {
    match error {
        StoreFailure::NoHomeDirectory => "Could not find home directory"@,
        StoreFailure::NotInitialized => "Account store is not initialized"@,
        StoreFailure::AlreadyInitialized => "Account store is already initialized"@,
        StoreFailure::SnapshotPoisoned(s) => "Account store snapshot lock is poisoned: "@ + s,
        StoreFailure::WorkerNotStarted => "Failed to start account store worker"@,
        StoreFailure::UpdateNotAdmitted => "Account store worker stopped before update admission"@,
        StoreFailure::UpdateDropped => "Account store worker dropped an admitted update"@,
        StoreFailure::WorkerStoppedBeforeShutdown =>
            "Account store worker stopped before shutdown"@,
        StoreFailure::WorkerPanicked => "Account store worker panicked"@,
        StoreFailure::NameTaken(s) => "An account with name '"@ + s + "' already exists"@,
        StoreFailure::AccountNotFound(s) => "Account not found: "@ + s,
        StoreFailure::AccountMissing => "Account not found"@,
        StoreFailure::ApiKeyAccount => "Cannot update OAuth tokens for an API key account"@,
        StoreFailure::NoParentDirectory => "Accounts file has no parent directory"@,
        StoreFailure::ReadAccounts(s) => "Failed to read accounts file: "@ + s,
        StoreFailure::ParseAccounts(s) => "Failed to parse accounts file: "@ + s,
        StoreFailure::ReadSettings(s) => "Failed to read settings file: "@ + s,
        StoreFailure::ParseSettings(s) => "Failed to parse settings file: "@ + s,
        StoreFailure::CreateDirectory(s) => "Failed to create config directory: "@ + s,
        StoreFailure::SerializeAccounts => "Failed to serialize accounts store"@,
        StoreFailure::SerializeSettings => "Failed to serialize settings"@,
        StoreFailure::CreateTemporary(s) => "Failed to create temporary accounts file in "@ + s,
        StoreFailure::ReplaceAccounts(s) => "Failed to replace accounts file: "@ + s,
        StoreFailure::WriteSettings(s) => "Failed to write settings file: "@ + s,
    }
}

/// `head` followed by `tail`.
fn joined(head: &str, tail: &str) -> (whole: String)
    ensures
        whole@ == head@ + tail@,
{
    head.to_string().concat(tail)
}

impl StoreFailure<String> {
    /// The message that a user sees.
    pub fn message(&self) -> (message: String)
        ensures
            message@ == message_of(self@),
    {
        match self {
            StoreFailure::NoHomeDirectory => "Could not find home directory".to_string(),
            StoreFailure::NotInitialized => "Account store is not initialized".to_string(),
            StoreFailure::AlreadyInitialized => "Account store is already initialized".to_string(),
            StoreFailure::SnapshotPoisoned(s) =>
                joined("Account store snapshot lock is poisoned: ", s.as_str()),
            StoreFailure::WorkerNotStarted => "Failed to start account store worker".to_string(),
            StoreFailure::UpdateNotAdmitted =>
                "Account store worker stopped before update admission".to_string(),
            StoreFailure::UpdateDropped =>
                "Account store worker dropped an admitted update".to_string(),
            StoreFailure::WorkerStoppedBeforeShutdown =>
                "Account store worker stopped before shutdown".to_string(),
            StoreFailure::WorkerPanicked => "Account store worker panicked".to_string(),
            StoreFailure::NameTaken(s) =>
                joined("An account with name '", s.as_str()).concat("' already exists"),
            StoreFailure::AccountNotFound(s) => joined("Account not found: ", s.as_str()),
            StoreFailure::AccountMissing => "Account not found".to_string(),
            StoreFailure::ApiKeyAccount =>
                "Cannot update OAuth tokens for an API key account".to_string(),
            StoreFailure::NoParentDirectory =>
                "Accounts file has no parent directory".to_string(),
            StoreFailure::ReadAccounts(s) => joined("Failed to read accounts file: ", s.as_str()),
            StoreFailure::ParseAccounts(s) => joined("Failed to parse accounts file: ", s.as_str()),
            StoreFailure::ReadSettings(s) => joined("Failed to read settings file: ", s.as_str()),
            StoreFailure::ParseSettings(s) => joined("Failed to parse settings file: ", s.as_str()),
            StoreFailure::CreateDirectory(s) =>
                joined("Failed to create config directory: ", s.as_str()),
            StoreFailure::SerializeAccounts => "Failed to serialize accounts store".to_string(),
            StoreFailure::SerializeSettings => "Failed to serialize settings".to_string(),
            StoreFailure::CreateTemporary(s) =>
                joined("Failed to create temporary accounts file in ", s.as_str()),
            StoreFailure::ReplaceAccounts(s) =>
                joined("Failed to replace accounts file: ", s.as_str()),
            StoreFailure::WriteSettings(s) => joined("Failed to write settings file: ", s.as_str()),
        }
    }
}

} // verus!

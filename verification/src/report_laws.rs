//! What is reported when something fails: which failure stands for what, in which
//! context it comes, and what its message says.

use crate::error;
use crate::error::{ErrorView, StepFailure, StoreError, StoreFailure};
use crate::files;
use crate::files::{FileLoad, SaveStep, WriteStep};
use crate::types::AccountsStore;
use vstd::prelude::*;

verus! {

/// The view of a failure is the same failure, with the characters of its text.
pub proof fn law_failure_view_names_the_failure(failure: StoreError)
    ensures
        match failure {
            StoreFailure::NoHomeDirectory => failure@ is NoHomeDirectory,
            StoreFailure::NotInitialized => failure@ is NotInitialized,
            StoreFailure::AlreadyInitialized => failure@ is AlreadyInitialized,
            StoreFailure::SnapshotPoisoned(s) => failure@ == ErrorView::SnapshotPoisoned(s@),
            StoreFailure::WorkerNotStarted => failure@ is WorkerNotStarted,
            StoreFailure::UpdateNotAdmitted => failure@ is UpdateNotAdmitted,
            StoreFailure::UpdateDropped => failure@ is UpdateDropped,
            StoreFailure::WorkerStoppedBeforeShutdown => failure@ is WorkerStoppedBeforeShutdown,
            StoreFailure::WorkerPanicked => failure@ is WorkerPanicked,
            StoreFailure::NameTaken(s) => failure@ == ErrorView::NameTaken(s@),
            StoreFailure::AccountNotFound(s) => failure@ == ErrorView::AccountNotFound(s@),
            StoreFailure::AccountMissing => failure@ is AccountMissing,
            StoreFailure::ApiKeyAccount => failure@ is ApiKeyAccount,
            StoreFailure::NoParentDirectory => failure@ is NoParentDirectory,
            StoreFailure::ReadAccounts(s) => failure@ == ErrorView::ReadAccounts(s@),
            StoreFailure::ParseAccounts(s) => failure@ == ErrorView::ParseAccounts(s@),
            StoreFailure::ReadSettings(s) => failure@ == ErrorView::ReadSettings(s@),
            StoreFailure::ParseSettings(s) => failure@ == ErrorView::ParseSettings(s@),
            StoreFailure::CreateDirectory(s) => failure@ == ErrorView::CreateDirectory(s@),
            StoreFailure::SerializeAccounts => failure@ is SerializeAccounts,
            StoreFailure::SerializeSettings => failure@ is SerializeSettings,
            StoreFailure::CreateTemporary(s) => failure@ == ErrorView::CreateTemporary(s@),
            StoreFailure::ReplaceAccounts(s) => failure@ == ErrorView::ReplaceAccounts(s@),
            StoreFailure::WriteSettings(s) => failure@ == ErrorView::WriteSettings(s@),
        },
{
}

/// A failure of outside work is passed on with its cause, and has a context exactly
/// where one was owed, and that one.
pub proof fn law_step_failure_keeps_cause_and_context<E>(
    failure: StepFailure<E>,
    context: Option<ErrorView>,
    cause: E,
)
    requires
        error::is_step_failure(failure, context, cause),
    ensures
        failure.cause == cause,
        failure.context is Some <==> context is Some,
        failure.context is Some ==> failure.context->0@ == context->0,
{
}

// ---- Reading ----

/// Reading the accounts gives an empty store where there is no file, the store that
/// was parsed where there is one, and else a failure that names the path and says
/// whether reading or parsing failed.
pub proof fn law_store_read_reports<E>(
    path: Seq<char>,
    file: FileLoad<AccountsStore, E>,
    result: Result<AccountsStore, StepFailure<E>>,
)
    requires
        files::is_store_read(path, file, result),
    ensures
        match file {
            FileLoad::Missing => {
                &&& result matches Ok(store)
                &&& store.accounts@.len() == 0
                &&& store.active_account_id is None
                &&& store.masked_account_ids@.len() == 0
            },
            FileLoad::Parsed(store) => result == Ok::<AccountsStore, StepFailure<E>>(store),
            FileLoad::Unreadable(cause) => {
                &&& result matches Err(e)
                &&& e.cause == cause
                &&& e.context matches Some(StoreFailure::ReadAccounts(p))
                &&& p@ == path
            },
            FileLoad::Malformed(cause) => {
                &&& result matches Err(e)
                &&& e.cause == cause
                &&& e.context matches Some(StoreFailure::ParseAccounts(p))
                &&& p@ == path
            },
        },
{
    if file is Missing && result is Ok {
        let store = result->Ok_0;
        assert(store@.accounts.len() == store.accounts@.len());
        assert(store@.masked.len() == store.masked_account_ids@.len());
    }
}

/// Reading the settings gives the default ones where there is no file, those that
/// were parsed where there is one, and else a failure that names the path and says
/// whether reading or parsing failed.
pub proof fn law_settings_read_reports<Settings, E>(
    path: Seq<char>,
    file: FileLoad<Settings, E>,
    defaults: Settings,
    result: Result<Settings, StepFailure<E>>,
)
    requires
        files::is_settings_read(path, file, defaults, result),
    ensures
        match file {
            FileLoad::Missing => result == Ok::<Settings, StepFailure<E>>(defaults),
            FileLoad::Parsed(settings) => result == Ok::<Settings, StepFailure<E>>(settings),
            FileLoad::Unreadable(cause) => {
                &&& result matches Err(e)
                &&& e.cause == cause
                &&& e.context matches Some(StoreFailure::ReadSettings(p))
                &&& p@ == path
            },
            FileLoad::Malformed(cause) => {
                &&& result matches Err(e)
                &&& e.cause == cause
                &&& e.context matches Some(StoreFailure::ParseSettings(p))
                &&& p@ == path
            },
        },
{
}

// ---- Writing ----

/// A write of the accounts file that fails names the directory where the directory
/// or the temporary file could not be created, the file where it could not be
/// replaced, and nothing where permissions, content or a sync failed.
pub proof fn law_write_failure_names_its_place(
    step: WriteStep,
    parent: Seq<char>,
    path: Seq<char>,
)
    ensures
        ({
            let context = files::write_context(step, parent, path);
            &&& context == Some(ErrorView::CreateDirectory(parent)) <==> step
                == WriteStep::CreateDirectory
            &&& context == Some(ErrorView::SerializeAccounts) <==> step == WriteStep::Serialize
            &&& context == Some(ErrorView::CreateTemporary(parent)) <==> step
                == WriteStep::CreateTemporary
            &&& context == Some(ErrorView::ReplaceAccounts(path)) <==> step == WriteStep::Replace
            &&& context is None <==> {
                ||| step == WriteStep::RestrictTemporary
                ||| step == WriteStep::WriteTemporary
                ||| step == WriteStep::SyncTemporary
                ||| step == WriteStep::SyncDirectory
                ||| step == WriteStep::Done
            }
        }),
{
}

/// A save of the settings file that fails names the directory where it could not be
/// created, the file where it could not be written, and nothing where its
/// permissions could not be set.
pub proof fn law_save_failure_names_its_place(step: SaveStep, parent: Seq<char>, path: Seq<char>)
    ensures
        ({
            let context = files::save_context(step, parent, path);
            &&& context == Some(ErrorView::CreateDirectory(parent)) <==> step
                == SaveStep::CreateDirectory
            &&& context == Some(ErrorView::SerializeSettings) <==> step == SaveStep::Serialize
            &&& context == Some(ErrorView::WriteSettings(path)) <==> step == SaveStep::Write
            &&& context is None <==> step == SaveStep::Restrict || step == SaveStep::Done
        }),
{
}

// ---- Messages ----

/// The message of a failure that names a text is a fixed sentence with that text in
/// its place, whatever the text is.
pub proof fn law_message_holds_the_text(text: Seq<char>)
    ensures
        error::message_of(ErrorView::NameTaken(text)) == "An account with name '"@ + text
            + "' already exists"@,
        error::message_of(ErrorView::AccountNotFound(text)) == "Account not found: "@ + text,
        error::message_of(ErrorView::SnapshotPoisoned(text))
            == "Account store snapshot lock is poisoned: "@ + text,
        error::message_of(ErrorView::ReadAccounts(text)) == "Failed to read accounts file: "@
            + text,
        error::message_of(ErrorView::ParseAccounts(text)) == "Failed to parse accounts file: "@
            + text,
        error::message_of(ErrorView::ReadSettings(text)) == "Failed to read settings file: "@
            + text,
        error::message_of(ErrorView::ParseSettings(text)) == "Failed to parse settings file: "@
            + text,
        error::message_of(ErrorView::CreateDirectory(text)) == "Failed to create config directory: "@
            + text,
        error::message_of(ErrorView::CreateTemporary(text))
            == "Failed to create temporary accounts file in "@ + text,
        error::message_of(ErrorView::ReplaceAccounts(text)) == "Failed to replace accounts file: "@
            + text,
        error::message_of(ErrorView::WriteSettings(text)) == "Failed to write settings file: "@
            + text,
{
}

/// The message of a failure that names no text is a sentence of its own.
pub proof fn law_message_without_text(failure: ErrorView)
    ensures
        failure is NoHomeDirectory ==> error::message_of(failure)
            == "Could not find home directory"@,
        failure is NotInitialized ==> error::message_of(failure)
            == "Account store is not initialized"@,
        failure is AlreadyInitialized ==> error::message_of(failure)
            == "Account store is already initialized"@,
        failure is WorkerNotStarted ==> error::message_of(failure)
            == "Failed to start account store worker"@,
        failure is UpdateNotAdmitted ==> error::message_of(failure)
            == "Account store worker stopped before update admission"@,
        failure is UpdateDropped ==> error::message_of(failure)
            == "Account store worker dropped an admitted update"@,
        failure is WorkerStoppedBeforeShutdown ==> error::message_of(failure)
            == "Account store worker stopped before shutdown"@,
        failure is WorkerPanicked ==> error::message_of(failure)
            == "Account store worker panicked"@,
        failure is AccountMissing ==> error::message_of(failure) == "Account not found"@,
        failure is ApiKeyAccount ==> error::message_of(failure)
            == "Cannot update OAuth tokens for an API key account"@,
        failure is NoParentDirectory ==> error::message_of(failure)
            == "Accounts file has no parent directory"@,
        failure is SerializeAccounts ==> error::message_of(failure)
            == "Failed to serialize accounts store"@,
        failure is SerializeSettings ==> error::message_of(failure)
            == "Failed to serialize settings"@,
{
}

/// Two failures of one kind have the same message only where they name the same
/// text.
pub proof fn law_message_tells_texts_apart(a: Seq<char>, b: Seq<char>)
    requires
        a != b,
    ensures
        error::message_of(ErrorView::NameTaken(a)) != error::message_of(ErrorView::NameTaken(b)),
        error::message_of(ErrorView::AccountNotFound(a)) != error::message_of(
            ErrorView::AccountNotFound(b),
        ),
{
    lemma_same_ends("An account with name '"@, a, b, "' already exists"@);
    lemma_same_ends("Account not found: "@, a, b, Seq::empty());
    assert("Account not found: "@ + a + Seq::empty() =~= "Account not found: "@ + a);
    assert("Account not found: "@ + b + Seq::empty() =~= "Account not found: "@ + b);
}

proof fn lemma_same_ends(head: Seq<char>, a: Seq<char>, b: Seq<char>, tail: Seq<char>)
    requires
        a != b,
    ensures
        head + a + tail != head + b + tail,
{
    let left = head + a + tail;
    let right = head + b + tail;
    if left == right {
        assert(left.len() == head.len() + a.len() + tail.len());
        assert(right.len() == head.len() + b.len() + tail.len());
        assert forall|i: int| 0 <= i < a.len() implies a[i] == b[i] by {
            assert(left[head.len() + i] == a[i]);
            assert(right[head.len() + i] == b[i]);
        }
        assert(a =~= b);
    }
}

} // verus!

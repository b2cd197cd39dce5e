use account_store::error::{StoreError, StoreFailure};
use account_store::files::{
    first_save_step, first_write_step, load_app_settings, next_save_step, next_write_step,
    read_store, FileLoad, SaveStep, WriteStep, PRIVATE_FILE_MODE,
};
use account_store::types::AccountsStore;

const PARENT: &str = "/home/me/.codex-switcher";
const PATH: &str = "/home/me/.codex-switcher/accounts.json";

fn message(context: Option<StoreError>) -> String {
    match context {
        Some(error) => error.message(),
        None => "as it came".to_string(),
    }
}

fn write_steps(unix: bool) -> Vec<WriteStep> {
    let mut steps = vec![first_write_step(true).unwrap()];
    while steps[steps.len() - 1] != WriteStep::Done {
        let succeeded: Result<(), String> = Ok(());
        let last = steps[steps.len() - 1];
        steps.push(next_write_step(last, unix, PARENT, PATH, succeeded).unwrap());
    }
    steps
}

#[test]
fn private_files_are_for_their_owner() {
    assert_eq!(PRIVATE_FILE_MODE, 0o600);
}

#[test]
fn accounts_are_synced_before_the_file_is_replaced() {
    assert_eq!(
        write_steps(true),
        vec![
            WriteStep::CreateDirectory,
            WriteStep::Serialize,
            WriteStep::CreateTemporary,
            WriteStep::RestrictTemporary,
            WriteStep::WriteTemporary,
            WriteStep::SyncTemporary,
            WriteStep::Replace,
            WriteStep::SyncDirectory,
            WriteStep::Done,
        ]
    );
    assert_eq!(
        write_steps(false),
        vec![
            WriteStep::CreateDirectory,
            WriteStep::Serialize,
            WriteStep::CreateTemporary,
            WriteStep::WriteTemporary,
            WriteStep::SyncTemporary,
            WriteStep::Replace,
            WriteStep::Done,
        ]
    );
}

#[test]
fn a_failed_write_step_says_what_failed() {
    let error = first_write_step(false).unwrap_err();
    assert_eq!(error.message(), "Accounts file has no parent directory");
    let expected = [
        (
            WriteStep::CreateDirectory,
            "Failed to create config directory: /home/me/.codex-switcher",
        ),
        (WriteStep::Serialize, "Failed to serialize accounts store"),
        (
            WriteStep::CreateTemporary,
            "Failed to create temporary accounts file in /home/me/.codex-switcher",
        ),
        (WriteStep::RestrictTemporary, "as it came"),
        (WriteStep::WriteTemporary, "as it came"),
        (WriteStep::SyncTemporary, "as it came"),
        (
            WriteStep::Replace,
            "Failed to replace accounts file: /home/me/.codex-switcher/accounts.json",
        ),
        (WriteStep::SyncDirectory, "as it came"),
    ];
    for (step, text) in expected {
        let failure = next_write_step(step, true, PARENT, PATH, Err("cause")).unwrap_err();
        assert_eq!(failure.cause, "cause");
        assert_eq!(message(failure.context), text);
    }
}

#[test]
fn settings_are_written_and_restricted() {
    let mut step = first_save_step(true);
    let mut steps = vec![step];
    while step != SaveStep::Done {
        let succeeded: Result<(), String> = Ok(());
        step = next_save_step(step, true, PARENT, PATH, succeeded).unwrap();
        steps.push(step);
    }
    assert_eq!(
        steps,
        vec![
            SaveStep::CreateDirectory,
            SaveStep::Serialize,
            SaveStep::Write,
            SaveStep::Restrict,
            SaveStep::Done,
        ]
    );
    assert_eq!(first_save_step(false), SaveStep::Serialize);
    let succeeded: Result<(), String> = Ok(());
    let next = next_save_step(SaveStep::Write, false, PARENT, PATH, succeeded).unwrap();
    assert_eq!(next, SaveStep::Done);
}

#[test]
fn a_failed_save_step_says_what_failed() {
    let path = "/home/me/.codex-switcher/settings.json";
    let expected = [
        (
            SaveStep::CreateDirectory,
            "Failed to create config directory: /home/me/.codex-switcher",
        ),
        (SaveStep::Serialize, "Failed to serialize settings"),
        (
            SaveStep::Write,
            "Failed to write settings file: /home/me/.codex-switcher/settings.json",
        ),
        (SaveStep::Restrict, "as it came"),
    ];
    for (step, text) in expected {
        let failure = next_save_step(step, true, PARENT, path, Err("cause")).unwrap_err();
        assert_eq!(failure.cause, "cause");
        assert_eq!(message(failure.context), text);
    }
}

#[test]
fn a_missing_accounts_file_is_an_empty_store() {
    let missing: FileLoad<AccountsStore, String> = FileLoad::Missing;
    let store = read_store(PATH, missing).unwrap();
    assert!(store.accounts.is_empty());
    assert_eq!(store.active_account_id, None);
    assert!(store.masked_account_ids.is_empty());
}

#[test]
fn an_accounts_file_is_read() {
    let mut held = AccountsStore::default();
    held.masked_account_ids.push("1".to_string());
    let parsed: FileLoad<AccountsStore, String> = FileLoad::Parsed(held);
    assert_eq!(read_store(PATH, parsed).unwrap().masked_account_ids, vec!["1"]);
    let failure = read_store(PATH, FileLoad::Unreadable("denied")).unwrap_err();
    assert_eq!(failure.cause, "denied");
    assert_eq!(
        message(failure.context),
        "Failed to read accounts file: /home/me/.codex-switcher/accounts.json"
    );
    let failure = read_store(PATH, FileLoad::Malformed("eof")).unwrap_err();
    assert_eq!(
        message(failure.context),
        "Failed to parse accounts file: /home/me/.codex-switcher/accounts.json"
    );
}

#[test]
fn a_settings_file_is_read() {
    let missing: FileLoad<u8, String> = FileLoad::Missing;
    assert_eq!(load_app_settings("s", missing, 1).unwrap(), 1);
    let parsed: FileLoad<u8, String> = FileLoad::Parsed(2);
    assert_eq!(load_app_settings("s", parsed, 1).unwrap(), 2);
    let failure = load_app_settings("s", FileLoad::Unreadable("denied"), 1).unwrap_err();
    assert_eq!(failure.cause, "denied");
    assert_eq!(message(failure.context), "Failed to read settings file: s");
    let failure = load_app_settings("s", FileLoad::Malformed("eof"), 1).unwrap_err();
    assert_eq!(message(failure.context), "Failed to parse settings file: s");
}

#[test]
fn other_messages() {
    let taken: StoreError = StoreFailure::AlreadyInitialized;
    assert_eq!(taken.message(), "Account store is already initialized");
    let failed: StoreError = StoreFailure::WorkerNotStarted;
    assert_eq!(failed.message(), "Failed to start account store worker");
}

/// Saves `content` over `file`, and fails at the step `stop`.
fn save_file(file: &mut Option<(String, bool)>, content: &str, stop: SaveStep) -> bool {
    let mut step = first_save_step(true);
    while step != SaveStep::Done {
        let outcome = if step == stop {
            Err("stopped")
        } else {
            match step {
                SaveStep::Write => *file = Some((content.to_string(), false)),
                SaveStep::Restrict => *file = Some((content.to_string(), true)),
                _ => {}
            }
            Ok(())
        };
        match next_save_step(step, true, PARENT, "s", outcome) {
            Ok(next) => step = next,
            Err(_) => return false,
        }
    }
    true
}

/// Loads a number from `file`, or 7 where there is none.
fn load_number(file: &Option<(String, bool)>) -> Result<u32, String> {
    let load = match file {
        None => FileLoad::Missing,
        Some((content, _)) => match content.parse::<u32>() {
            Ok(number) => FileLoad::Parsed(number),
            Err(error) => FileLoad::Malformed(format!("{}", error)),
        },
    };
    load_app_settings("s", load, 7).map_err(|failure| message(failure.context))
}

#[test]
fn saved_settings_are_loaded() {
    let mut file = None;
    assert_eq!(load_number(&file), Ok(7));
    for stop in [SaveStep::CreateDirectory, SaveStep::Serialize, SaveStep::Write] {
        assert!(!save_file(&mut file, "41", stop));
        assert_eq!(file, None);
    }
    assert!(!save_file(&mut file, "41", SaveStep::Restrict));
    assert_eq!(file, Some(("41".to_string(), false)));
    assert!(save_file(&mut file, "42", SaveStep::Done));
    assert_eq!(file, Some(("42".to_string(), true)));
    assert_eq!(load_number(&file), Ok(42));
    assert!(save_file(&mut file, "none", SaveStep::Done));
    assert_eq!(load_number(&file), Err("Failed to parse settings file: s".to_string()));
}

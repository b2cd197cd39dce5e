use account_store::writer::{
    candidate_for, candidate_persisted, execute, publish, shutdown_result, update_result,
    update_tried, worker_step, Delivery, StoreCopies, UpdateStep, WorkerAction, WorkerEvent,
    WorkerMode, UPDATE_QUEUE_CAPACITY,
};
use account_store::error::{Failure, StoreFailure};
use account_store::files::{first_write_step, next_write_step, WriteStep};
use account_store::storage::{get_masked_account_ids, Snapshot};
use account_store::types::AccountsStore;

fn masking(current: &AccountsStore, id: String) -> AccountsStore {
    let mut candidate = candidate_for(current);
    candidate.masked_account_ids.push(id);
    candidate
}

fn opened() -> StoreCopies {
    StoreCopies::open(AccountsStore::default())
}

#[test]
fn queue_is_bounded() {
    assert_eq!(UPDATE_QUEUE_CAPACITY, 16);
}

#[test]
fn open_gives_two_equal_copies() {
    let mut loaded = AccountsStore::default();
    loaded.masked_account_ids.push("1".to_string());
    let copies = StoreCopies::open(loaded);
    assert_eq!(copies.current.masked_account_ids, vec!["1"]);
    assert_eq!(copies.snapshot.masked_account_ids, vec!["1"]);
}

#[test]
fn updates_in_order_lose_none() {
    let mut copies = opened();
    for index in 0..32 {
        let candidate = masking(&copies.current, format!("account-{index}"));
        let outcome: Result<usize, String> = Ok(index);
        let reply = execute(&mut copies, candidate, outcome, Ok(()), Ok(()));
        assert_eq!(reply, Ok(index));
    }
    let ids = get_masked_account_ids(Snapshot::Available(&copies.snapshot)).unwrap();
    assert_eq!(ids.len(), 32);
    assert_eq!(ids[0], "account-0");
    assert_eq!(ids[31], "account-31");
    assert_eq!(copies.current.masked_account_ids, ids);
}

#[test]
fn a_failed_update_is_not_seen() {
    let mut copies = opened();
    let candidate = masking(&copies.current, "1".to_string());
    let outcome: Result<(), &str> = Err("refused");
    assert_eq!(execute(&mut copies, candidate, outcome, Ok(()), Ok(())), Err("refused"));
    assert!(copies.current.masked_account_ids.is_empty());
    assert!(copies.snapshot.masked_account_ids.is_empty());
}

#[test]
fn an_update_that_is_not_durable_is_not_seen() {
    let mut copies = opened();
    let candidate = masking(&copies.current, "1".to_string());
    let reply = execute(&mut copies, candidate, Ok(1), Err("disk full"), Ok(()));
    assert_eq!(reply, Err("disk full"));
    assert!(copies.current.masked_account_ids.is_empty());
    assert!(copies.snapshot.masked_account_ids.is_empty());
}

#[test]
fn an_update_without_the_lock_stays_with_the_writer() {
    let mut copies = opened();
    let candidate = masking(&copies.current, "1".to_string());
    let reply = execute(&mut copies, candidate, Ok(1), Ok(()), Err("poisoned"));
    assert_eq!(reply, Err("poisoned"));
    assert_eq!(copies.current.masked_account_ids, vec!["1"]);
    assert!(copies.snapshot.masked_account_ids.is_empty());
}

#[test]
fn an_update_is_persisted_before_it_is_published() {
    let mut copies = opened();
    let candidate = masking(&copies.current, "1".to_string());
    let outcome: Result<u8, String> = Ok(7);
    let (candidate, output) = match update_tried(candidate, outcome) {
        UpdateStep::Persist { candidate, output } => (candidate, output),
        step => panic!("{:?}", step),
    };
    assert!(copies.current.masked_account_ids.is_empty());
    let persisted: Result<(), String> = Ok(());
    let (candidate, output) =
        match candidate_persisted(&mut copies.current, candidate, output, persisted) {
            UpdateStep::Publish { candidate, output } => (candidate, output),
            step => panic!("{:?}", step),
        };
    assert_eq!(copies.current.masked_account_ids, vec!["1"]);
    assert!(copies.snapshot.masked_account_ids.is_empty());
    let locked: Result<(), String> = Ok(());
    assert_eq!(publish(&mut copies.snapshot, candidate, output, locked), Ok(7));
    assert_eq!(copies.snapshot.masked_account_ids, vec!["1"]);
}

#[test]
fn a_failed_update_is_answered_at_once() {
    let failed: Result<u8, String> = Err("refused".to_string());
    match update_tried(AccountsStore::default(), failed) {
        UpdateStep::Reply { result } => assert_eq!(result, Err("refused".to_string())),
        step => panic!("{:?}", step),
    }
    let mut current = AccountsStore::default();
    let persisted: Result<(), String> = Err("disk full".to_string());
    match candidate_persisted(&mut current, AccountsStore::default(), 1, persisted) {
        UpdateStep::Reply { result } => assert_eq!(result, Err("disk full".to_string())),
        step => panic!("{:?}", step),
    }
}

#[test]
fn deliveries() {
    let lost: Delivery<u8, String> = Delivery::NotAdmitted;
    match update_result(lost).unwrap_err() {
        Failure::Store(error) => assert_eq!(
            error.message(),
            "Account store worker stopped before update admission"
        ),
        failure => panic!("{:?}", failure),
    }
    let lost: Delivery<u8, String> = Delivery::Dropped("channel closed".to_string());
    match update_result(lost).unwrap_err() {
        Failure::Outside(failure) => {
            assert_eq!(failure.cause, "channel closed");
            assert_eq!(
                failure.context.unwrap().message(),
                "Account store worker dropped an admitted update"
            );
        }
        failure => panic!("{:?}", failure),
    }
    let replied: Delivery<u8, String> = Delivery::Replied(Ok(3));
    assert_eq!(update_result(replied).unwrap(), 3);
    let replied: Delivery<u8, String> = Delivery::Replied(Err("no".to_string()));
    match update_result(replied).unwrap_err() {
        Failure::Outside(failure) => {
            assert_eq!(failure.cause, "no");
            assert!(failure.context.is_none());
        }
        failure => panic!("{:?}", failure),
    }
}

#[test]
fn worker_drains_admitted_updates() {
    let events = [
        WorkerEvent::Update,
        WorkerEvent::Shutdown,
        WorkerEvent::Update,
        WorkerEvent::Shutdown,
        WorkerEvent::Update,
        WorkerEvent::Exhausted,
    ];
    let mut mode = WorkerMode::Serving;
    let mut actions = Vec::new();
    for event in events {
        let (next, action) = worker_step(mode, event);
        mode = next;
        actions.push(action);
    }
    assert_eq!(mode, WorkerMode::Stopped);
    assert_eq!(
        actions,
        vec![
            WorkerAction::Execute,
            WorkerAction::CloseQueue,
            WorkerAction::Execute,
            WorkerAction::Skip,
            WorkerAction::Execute,
            WorkerAction::Exit,
        ]
    );
}

#[test]
fn worker_ends_with_its_queue() {
    assert_eq!(
        worker_step(WorkerMode::Serving, WorkerEvent::Exhausted),
        (WorkerMode::Stopped, WorkerAction::Exit)
    );
}

#[test]
fn shutdowns() {
    assert!(shutdown_result(true, Some(true)).is_ok());
    assert!(shutdown_result(true, None).is_ok());
    let error = shutdown_result(false, Some(false)).unwrap_err();
    assert_eq!(error.message(), "Account store worker stopped before shutdown");
    let error = shutdown_result(true, Some(false)).unwrap_err();
    assert!(matches!(error, StoreFailure::WorkerPanicked));
    assert_eq!(error.message(), "Account store worker panicked");
}

/// Writes `content` over `file`, and fails at the step `stop`.
fn write_file(file: &mut Option<String>, content: &str, stop: WriteStep) -> Result<(), String> {
    let mut temporary = String::new();
    let mut step = first_write_step(true).unwrap();
    while step != WriteStep::Done {
        let outcome = if step == stop {
            Err("stopped".to_string())
        } else {
            match step {
                WriteStep::WriteTemporary => temporary = content.to_string(),
                WriteStep::Replace => *file = Some(temporary.clone()),
                _ => {}
            }
            Ok(())
        };
        match next_write_step(step, true, "/d", "/d/accounts.json", outcome) {
            Ok(next) => step = next,
            Err(failure) => return Err(failure.cause),
        }
    }
    Ok(())
}

#[test]
fn the_file_follows_the_store() {
    let mut copies = opened();
    let mut file = Some(format!("{:?}", copies.current));
    for stop in [
        WriteStep::CreateDirectory,
        WriteStep::Serialize,
        WriteStep::CreateTemporary,
        WriteStep::RestrictTemporary,
        WriteStep::WriteTemporary,
        WriteStep::SyncTemporary,
        WriteStep::Replace,
        WriteStep::Done,
    ] {
        let candidate = masking(&copies.current, format!("{:?}", stop));
        let persisted = write_file(&mut file, &format!("{:?}", candidate), stop);
        let done = persisted.is_ok();
        assert_eq!(done, stop == WriteStep::Done);
        let reply = execute(&mut copies, candidate, Ok(()), persisted, Ok(()));
        assert_eq!(reply.is_ok(), done);
        assert_eq!(file, Some(format!("{:?}", copies.current)));
    }
    assert_eq!(copies.current.masked_account_ids, vec!["Done"]);

    let candidate = masking(&copies.current, "late".to_string());
    let content = format!("{:?}", candidate);
    let persisted = write_file(&mut file, &content, WriteStep::SyncDirectory);
    let reply = execute(&mut copies, candidate, Ok(()), persisted, Ok(()));
    assert_eq!(reply, Err("stopped".to_string()));
    assert_eq!(copies.current.masked_account_ids, vec!["Done"]);
    assert_eq!(file, Some(content));
}

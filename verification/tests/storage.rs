use account_store::error::{Failure, StoreFailure};
use account_store::storage::{
    account_to_activate, add_account, finish_token_update, get_account, get_active_account,
    get_masked_account_ids, load_accounts, remove_account, set_active_account,
    set_active_account_at, set_masked_account_ids, update_account_chatgpt_tokens,
    update_account_metadata, Snapshot, TokenUpdate,
};
use account_store::types::{AccountsStore, AuthData, StoredAccount, Timestamp};

fn chatgpt(id: &str, name: &str) -> StoredAccount {
    StoredAccount {
        id: id.to_string(),
        name: name.to_string(),
        email: None,
        plan_type: None,
        subscription_expires_at: None,
        auth_data: AuthData::ChatGPT {
            id_token: "id-0".to_string(),
            access_token: "access-0".to_string(),
            refresh_token: "refresh-0".to_string(),
            account_id: Some("org-0".to_string()),
        },
        last_used_at: None,
    }
}

fn api_key(id: &str, name: &str) -> StoredAccount {
    StoredAccount {
        auth_data: AuthData::ApiKey {
            key: "key".to_string(),
        },
        ..chatgpt(id, name)
    }
}

fn at(seconds: i64) -> Timestamp {
    Timestamp { seconds, nanos: 0 }
}

fn store_of(accounts: Vec<StoredAccount>) -> AccountsStore {
    let mut store = AccountsStore::default();
    for account in accounts {
        add_account(&mut store, account).unwrap();
    }
    store
}

fn ids(store: &AccountsStore) -> Vec<String> {
    store.accounts.iter().map(|a| a.id.clone()).collect()
}

fn text(store: &AccountsStore) -> String {
    format!("{:?}", store)
}

#[test]
fn first_account_becomes_active() {
    let mut store = AccountsStore::default();
    let stored = add_account(&mut store, chatgpt("1", "work")).unwrap();
    assert_eq!(stored.id, "1");
    assert_eq!(store.active_account_id, Some("1".to_string()));
    add_account(&mut store, chatgpt("2", "home")).unwrap();
    assert_eq!(store.active_account_id, Some("1".to_string()));
    assert_eq!(ids(&store), vec!["1", "2"]);
}

#[test]
fn add_refuses_a_name_in_use() {
    let mut store = store_of(vec![chatgpt("1", "work")]);
    let before = text(&store);
    let error = add_account(&mut store, chatgpt("2", "work")).unwrap_err();
    assert!(matches!(&error, StoreFailure::NameTaken(name) if name == "work"));
    assert_eq!(error.message(), "An account with name 'work' already exists");
    assert_eq!(text(&store), before);
}

#[test]
fn add_accepts_an_id_in_use_and_finds_the_earlier_account() {
    let store = store_of(vec![chatgpt("1", "work"), chatgpt("1", "home")]);
    let found = get_account(Snapshot::Available(&store), "1").unwrap().unwrap();
    assert_eq!(found.name, "work");
}

#[test]
fn remove_passes_activity_to_the_first_account_left() {
    let mut store = store_of(vec![chatgpt("1", "a"), chatgpt("2", "b"), chatgpt("3", "c")]);
    remove_account(&mut store, "1").unwrap();
    assert_eq!(ids(&store), vec!["2", "3"]);
    assert_eq!(store.active_account_id, Some("2".to_string()));
    remove_account(&mut store, "3").unwrap();
    assert_eq!(store.active_account_id, Some("2".to_string()));
    remove_account(&mut store, "2").unwrap();
    assert_eq!(store.active_account_id, None);
    assert!(store.accounts.is_empty());
}

#[test]
fn remove_takes_out_every_account_with_the_id() {
    let mut store = store_of(vec![
        chatgpt("1", "a"),
        chatgpt("2", "b"),
        chatgpt("1", "c"),
        chatgpt("3", "d"),
    ]);
    remove_account(&mut store, "1").unwrap();
    assert_eq!(ids(&store), vec!["2", "3"]);
    assert!(get_account(Snapshot::Available(&store), "1").unwrap().is_none());
}

#[test]
fn remove_refuses_an_unknown_id() {
    let mut store = store_of(vec![chatgpt("1", "a")]);
    let before = text(&store);
    let error = remove_account(&mut store, "9").unwrap_err();
    assert!(matches!(&error, StoreFailure::AccountNotFound(id) if id == "9"));
    assert_eq!(error.message(), "Account not found: 9");
    assert_eq!(text(&store), before);
}

#[test]
fn remove_undoes_add() {
    for accounts in [vec![], vec![chatgpt("1", "a")]] {
        let mut store = store_of(accounts);
        let before = text(&store);
        add_account(&mut store, chatgpt("2", "b")).unwrap();
        remove_account(&mut store, "2").unwrap();
        assert_eq!(text(&store), before);
    }
}

#[test]
fn activation_records_the_use() {
    let mut store = store_of(vec![chatgpt("1", "a"), chatgpt("2", "b")]);
    assert_eq!(account_to_activate(&store, "2").unwrap().name, "b");
    set_active_account_at(&mut store, "2", at(77)).unwrap();
    let active = get_active_account(Snapshot::Available(&store)).unwrap().unwrap();
    assert_eq!(active.id, "2");
    assert_eq!(active.last_used_at, Some(at(77)));
    assert_eq!(store.accounts[0].last_used_at, None);
}

#[test]
fn activation_takes_the_time_of_the_clock() {
    let mut store = store_of(vec![chatgpt("1", "a")]);
    let before = chrono::Utc::now().timestamp();
    let switched: Result<(), String> = Ok(());
    set_active_account(&mut store, "1", switched).unwrap();
    let after = chrono::Utc::now().timestamp();
    let used = store.accounts[0].last_used_at.unwrap();
    assert!(before <= used.seconds && used.seconds <= after);
    assert!(used.nanos < 1_000_000_000);
}

#[test]
fn activation_fails_where_the_switch_fails() {
    let mut store = store_of(vec![chatgpt("1", "a"), chatgpt("2", "b")]);
    let before = text(&store);
    let failure = set_active_account(&mut store, "2", Err("disk full")).unwrap_err();
    assert!(matches!(failure, Failure::Outside("disk full")));
    assert_eq!(text(&store), before);
}

#[test]
fn activation_refuses_an_unknown_id() {
    let mut store = store_of(vec![chatgpt("1", "a")]);
    let error = account_to_activate(&store, "9").unwrap_err();
    assert_eq!(error.message(), "Account not found: 9");
    let error = set_active_account_at(&mut store, "9", at(1)).unwrap_err();
    assert_eq!(error.message(), "Account not found: 9");
    let failure = set_active_account(&mut store, "9", Err("unused")).unwrap_err();
    assert!(matches!(failure, Failure::Store(StoreFailure::AccountNotFound(id)) if id == "9"));
    assert_eq!(store.active_account_id, Some("1".to_string()));
}

#[test]
fn metadata_update_changes_what_is_given() {
    let mut store = store_of(vec![chatgpt("1", "a"), chatgpt("2", "b")]);
    let account = update_account_metadata(
        &mut store,
        "2",
        Some("c".to_string()),
        Some("c@example.com".to_string()),
        None,
        Some(Some(at(9))),
    )
    .unwrap();
    assert_eq!(account.name, "c");
    assert_eq!(account.email, Some("c@example.com".to_string()));
    assert_eq!(account.plan_type, None);
    assert_eq!(account.subscription_expires_at, Some(at(9)));
    assert_eq!(store.accounts[0].name, "a");
    let once = text(&store);
    let account =
        update_account_metadata(&mut store, "2", Some("c".to_string()), None, None, None).unwrap();
    assert_eq!(account.subscription_expires_at, Some(at(9)));
    assert_eq!(text(&store), once);
    let account =
        update_account_metadata(&mut store, "2", None, None, Some("pro".to_string()), Some(None))
            .unwrap();
    assert_eq!(account.subscription_expires_at, None);
    assert_eq!(account.plan_type, Some("pro".to_string()));
}

#[test]
fn metadata_update_without_values_changes_nothing() {
    let mut store = store_of(vec![chatgpt("1", "a")]);
    let before = text(&store);
    update_account_metadata(&mut store, "1", None, None, None, None).unwrap();
    assert_eq!(text(&store), before);
}

#[test]
fn metadata_update_refuses_the_name_of_another_id() {
    let mut store = store_of(vec![chatgpt("1", "a"), chatgpt("2", "b")]);
    let before = text(&store);
    let name = Some("a".to_string());
    let error = update_account_metadata(&mut store, "2", name, None, None, None).unwrap_err();
    assert_eq!(error.message(), "An account with name 'a' already exists");
    let name = Some("a".to_string());
    let error = update_account_metadata(&mut store, "9", name, None, None, None).unwrap_err();
    assert_eq!(error.message(), "An account with name 'a' already exists");
    assert_eq!(text(&store), before);
}

#[test]
fn metadata_update_compares_names_of_other_ids_only() {
    let mut store = store_of(vec![chatgpt("1", "a"), chatgpt("1", "b")]);
    let name = Some("b".to_string());
    update_account_metadata(&mut store, "1", name, None, None, None).unwrap();
    assert_eq!(store.accounts[0].name, "b");
    assert_eq!(store.accounts[1].name, "b");
}

#[test]
fn metadata_update_refuses_an_unknown_id() {
    let mut store = store_of(vec![chatgpt("1", "a")]);
    let error = update_account_metadata(&mut store, "9", None, None, None, None).unwrap_err();
    assert!(matches!(error, StoreFailure::AccountMissing));
    assert_eq!(error.message(), "Account not found");
}

fn new_tokens(
    store: &mut AccountsStore,
    id: &str,
    account_id: Option<String>,
) -> Result<TokenUpdate, StoreFailure<String>> {
    update_account_chatgpt_tokens(
        store,
        id,
        "id-1".to_string(),
        "access-1".to_string(),
        "refresh-1".to_string(),
        account_id,
        Some("me@example.com".to_string()),
        None,
        Some(at(5)),
    )
}

#[test]
fn token_update_replaces_tokens() {
    let mut store = store_of(vec![chatgpt("1", "a"), chatgpt("2", "b")]);
    let update = new_tokens(&mut store, "2", None).unwrap();
    assert!(!update.switch_needed);
    assert_eq!(update.account.name, "b");
    assert_eq!(update.account.email, Some("me@example.com".to_string()));
    assert_eq!(update.account.plan_type, None);
    assert_eq!(update.account.subscription_expires_at, Some(at(5)));
    match &store.accounts[1].auth_data {
        AuthData::ChatGPT { id_token, access_token, refresh_token, account_id } => {
            assert_eq!(id_token, "id-1");
            assert_eq!(access_token, "access-1");
            assert_eq!(refresh_token, "refresh-1");
            assert_eq!(account_id, &Some("org-0".to_string()));
        }
        AuthData::ApiKey { .. } => panic!("the account uses tokens"),
    }
    assert!(matches!(
        &store.accounts[0].auth_data,
        AuthData::ChatGPT { id_token, .. } if id_token == "id-0"
    ));
    let once = text(&store);
    new_tokens(&mut store, "2", None).unwrap();
    assert_eq!(text(&store), once);
}

#[test]
fn token_update_of_the_active_account_asks_for_a_switch() {
    let mut store = store_of(vec![chatgpt("1", "a"), chatgpt("2", "b")]);
    let update = new_tokens(&mut store, "1", Some("org-1".to_string())).unwrap();
    assert!(update.switch_needed);
    assert!(matches!(
        &update.account.auth_data,
        AuthData::ChatGPT { account_id: Some(org), .. } if org == "org-1"
    ));
    assert_eq!(finish_token_update(update, Err("no switch")).unwrap_err(), "no switch");
    let update = new_tokens(&mut store, "1", None).unwrap();
    let switched: Result<(), String> = Ok(());
    assert_eq!(finish_token_update(update, switched).unwrap().id, "1");
    let update = new_tokens(&mut store, "2", None).unwrap();
    assert_eq!(finish_token_update(update, Err("not asked")).unwrap().id, "2");
}

#[test]
fn token_update_refuses_api_keys_and_unknown_ids() {
    let mut store = store_of(vec![api_key("1", "a")]);
    let before = text(&store);
    let error = new_tokens(&mut store, "1", None).unwrap_err();
    assert!(matches!(error, StoreFailure::ApiKeyAccount));
    assert_eq!(error.message(), "Cannot update OAuth tokens for an API key account");
    let error = new_tokens(&mut store, "9", None).unwrap_err();
    assert!(matches!(error, StoreFailure::AccountMissing));
    assert_eq!(text(&store), before);
}

#[test]
fn masked_ids_are_read_back() {
    let mut store = store_of(vec![chatgpt("1", "a")]);
    set_masked_account_ids(&mut store, vec!["1".to_string(), "7".to_string()]);
    let ids = get_masked_account_ids(Snapshot::Available(&store)).unwrap();
    assert_eq!(ids, vec!["1", "7"]);
    assert_eq!(store.accounts.len(), 1);
    assert_eq!(store.active_account_id, Some("1".to_string()));
}

#[test]
fn reads_of_an_available_snapshot() {
    let empty = AccountsStore::default();
    assert!(get_account(Snapshot::Available(&empty), "1").unwrap().is_none());
    assert!(get_active_account(Snapshot::Available(&empty)).unwrap().is_none());
    let mut store = store_of(vec![chatgpt("1", "a"), chatgpt("2", "b"), chatgpt("3", "c")]);
    assert_eq!(text(&load_accounts(Snapshot::Available(&store)).unwrap()), text(&store));
    assert_eq!(get_account(Snapshot::Available(&store), "2").unwrap().unwrap().name, "b");
    assert_eq!(get_active_account(Snapshot::Available(&store)).unwrap().unwrap().name, "a");
    store.active_account_id = Some("gone".to_string());
    assert!(get_active_account(Snapshot::Available(&store)).unwrap().is_none());
}

#[test]
fn reads_without_a_snapshot_fail() {
    let error = load_accounts(Snapshot::Uninitialized).unwrap_err();
    assert!(matches!(error, StoreFailure::NotInitialized));
    assert_eq!(error.message(), "Account store is not initialized");
    let error = get_account(Snapshot::Uninitialized, "1").unwrap_err();
    assert!(matches!(error, StoreFailure::NotInitialized));
    let error = get_active_account(Snapshot::Poisoned("broken".to_string())).unwrap_err();
    assert_eq!(error.message(), "Account store snapshot lock is poisoned: broken");
    let error = get_masked_account_ids(Snapshot::Poisoned("broken".to_string())).unwrap_err();
    assert!(matches!(&error, StoreFailure::SnapshotPoisoned(report) if report == "broken"));
}

#[test]
fn an_account_is_active_exactly_where_there_is_one() {
    let mut store = AccountsStore::default();
    assert!(get_active_account(Snapshot::Available(&store)).unwrap().is_none());
    for (id, name) in [("1", "a"), ("2", "b"), ("3", "c")] {
        add_account(&mut store, chatgpt(id, name)).unwrap();
        assert!(get_active_account(Snapshot::Available(&store)).unwrap().is_some());
    }
    set_active_account_at(&mut store, "3", at(1)).unwrap();
    for id in ["3", "1"] {
        remove_account(&mut store, id).unwrap();
        assert!(get_active_account(Snapshot::Available(&store)).unwrap().is_some());
    }
    remove_account(&mut store, "2").unwrap();
    assert!(get_active_account(Snapshot::Available(&store)).unwrap().is_none());
}

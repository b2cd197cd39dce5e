//! The operations on the store.
//!
//! An operation that changes the store takes it by `&mut` and leaves it as it
//! was where it fails. A read takes what was found behind the snapshot lock.

use crate::clock;
use crate::clock::utc_now;
use crate::error::{ErrorView, Failure, StoreError, StoreFailure};
use crate::model;
use crate::model::{MetadataView, TokensView};
use crate::types;
use crate::types::{AccountView, AccountsStore, AuthData, StoreView, StoredAccount, Timestamp};
use vstd::prelude::*;

verus! {

/// Where the first account with the id stands.
fn find_index(accounts: &Vec<StoredAccount>, account_id: &String) -> (found: Option<usize>)
    ensures
        match found {
            Some(i) => model::is_first_with_id(types::account_views(accounts@), account_id@, i as int),
            None => !model::has_id(types::account_views(accounts@), account_id@),
        },
{
    let mut i: usize = 0;
    while i < accounts.len()
        invariant
            i <= accounts.len(),
            forall|j: int| 0 <= j < i ==> accounts@[j].id@ != account_id@,
        decreases accounts.len() - i,
    {
        if accounts[i].id == *account_id {
            return Some(i);
        }
        i += 1;
    }
    None
}

/// An account with another id than `account_id` has the name.
fn name_taken(accounts: &Vec<StoredAccount>, account_id: &String, name: &String) -> (taken: bool)
    ensures
        taken == model::name_taken_from(types::account_views(accounts@), account_id@, name@),
{
    let mut i: usize = 0;
    while i < accounts.len()
        invariant
            i <= accounts.len(),
            forall|j: int|
                0 <= j < i ==> accounts@[j].id@ == account_id@ || accounts@[j].name@ != name@,
        decreases accounts.len() - i,
    {
        if !(accounts[i].id == *account_id) && accounts[i].name == *name {
            assert(types::account_views(accounts@)[i as int].id != account_id@);
            return true;
        }
        i += 1;
    }
    false
}

/// What a token update did: the account as it now stands, and whether it is the
/// active one, whose credentials in use have to follow.
#[derive(Debug)]
pub struct TokenUpdate {
    pub account: StoredAccount,
    pub switch_needed: bool,
}

/// Update ChatGPT OAuth tokens for an account and return the updated account.
///
/// Where the account is active, its credentials in use are to be switched next:
/// see [`finish_token_update`].
pub fn update_account_chatgpt_tokens(
    store: &mut AccountsStore,
    account_id: &str,
    id_token: String,
    access_token: String,
    refresh_token: String,
    chatgpt_account_id: Option<String>,
    email: Option<String>,
    plan_type: Option<String>,
    subscription_expires_at: Option<Timestamp>,
) -> (result: Result<TokenUpdate, StoreError>)
    ensures
        ({
            let tokens = TokensView {
                id_token: id_token@,
                access_token: access_token@,
                refresh_token: refresh_token@,
                account_id: types::text(chatgpt_account_id),
                email: types::text(email),
                plan_type: types::text(plan_type),
                subscription_expires_at,
            };
            match model::tokens_updated(old(store)@, account_id@, tokens) {
                Ok(updated) => {
                    &&& result matches Ok(update)
                    &&& final(store)@ == updated
                    &&& Some(update.account@) == model::account_with_id(updated.accounts, account_id@)
                    &&& update.switch_needed == (old(store)@.active == Some(account_id@))
                },
                Err(error) => {
                    &&& result matches Err(e)
                    &&& e@ == error
                    &&& final(store)@ == old(store)@
                },
            }
        }),
{
    let ghost tokens = TokensView {
        id_token: id_token@,
        access_token: access_token@,
        refresh_token: refresh_token@,
        account_id: types::text(chatgpt_account_id),
        email: types::text(email),
        plan_type: types::text(plan_type),
        subscription_expires_at,
    };
    let account_id = account_id.to_string();
    let is_active = match &store.active_account_id {
        Some(active) => *active == account_id,
        None => false,
    };
    let index = match find_index(&store.accounts, &account_id) {
        Some(index) => index,
        None => return Err(StoreFailure::AccountMissing),
    };
    proof {
        model::lemma_position_is(store@.accounts, account_id@, index as int);
    }
    let account = &mut store.accounts[index];
    match &mut account.auth_data {
        AuthData::ChatGPT {
            id_token: stored_id_token,
            access_token: stored_access_token,
            refresh_token: stored_refresh_token,
            account_id: stored_account_id,
        } => {
            *stored_id_token = id_token;
            *stored_access_token = access_token;
            *stored_refresh_token = refresh_token;
            if let Some(new_account_id) = chatgpt_account_id {
                *stored_account_id = Some(new_account_id);
            }
        },
        AuthData::ApiKey { .. } => {
            return Err(StoreFailure::ApiKeyAccount);
        },
    }
    if let Some(new_email) = email {
        account.email = Some(new_email);
    }
    if let Some(new_plan_type) = plan_type {
        account.plan_type = Some(new_plan_type);
    }
    if let Some(expiry) = subscription_expires_at {
        account.subscription_expires_at = Some(expiry);
    }
    let updated = account.clone();
    proof {
        let account = old(store)@.accounts[index as int];
        model::lemma_with_account(old(store)@, account_id@, model::with_tokens(account, tokens));
        assert(store@.accounts =~= model::with_account(
            old(store)@,
            account_id@,
            model::with_tokens(account, tokens),
        ).accounts);
    }
    Ok(TokenUpdate { account: updated, switch_needed: is_active })
}

/// What a token update returns once the credentials in use have followed.
///
/// `switched` says how that went; it counts only where it was needed.
pub fn finish_token_update<E>(update: TokenUpdate, switched: Result<(), E>) -> (result: Result<
    StoredAccount,
    E,
>)
    ensures
        match switched {
            Err(error) if update.switch_needed => result == Err::<StoredAccount, E>(error),
            _ => result == Ok::<StoredAccount, E>(update.account),
        },
{
    if update.switch_needed {
        match switched {
            Ok(()) => Ok(update.account),
            Err(error) => Err(error),
        }
    } else {
        Ok(update.account)
    }
}

/// Update an account's metadata (name, email, plan_type, subscription expiry).
pub fn update_account_metadata(
    store: &mut AccountsStore,
    account_id: &str,
    name: Option<String>,
    email: Option<String>,
    plan_type: Option<String>,
    subscription_expires_at: Option<Option<Timestamp>>,
) -> (result: Result<StoredAccount, StoreError>)
    ensures
        ({
            let change = MetadataView {
                name: types::text(name),
                email: types::text(email),
                plan_type: types::text(plan_type),
                subscription_expires_at,
            };
            match model::metadata_updated(old(store)@, account_id@, change) {
                Ok(updated) => {
                    &&& result matches Ok(account)
                    &&& final(store)@ == updated
                    &&& Some(account@) == model::account_with_id(updated.accounts, account_id@)
                },
                Err(error) => {
                    &&& result matches Err(e)
                    &&& e@ == error
                    &&& final(store)@ == old(store)@
                },
            }
        }),
{
    let ghost change = MetadataView {
        name: types::text(name),
        email: types::text(email),
        plan_type: types::text(plan_type),
        subscription_expires_at,
    };
    let account_id = account_id.to_string();
    if let Some(new_name) = &name {
        if name_taken(&store.accounts, &account_id, new_name) {
            return Err(StoreFailure::NameTaken(new_name.clone()));
        }
    }
    let index = match find_index(&store.accounts, &account_id) {
        Some(index) => index,
        None => return Err(StoreFailure::AccountMissing),
    };
    proof {
        model::lemma_position_is(store@.accounts, account_id@, index as int);
    }
    let account = &mut store.accounts[index];
    if let Some(new_name) = name {
        account.name = new_name;
    }
    if email.is_some() {
        account.email = email;
    }
    if plan_type.is_some() {
        account.plan_type = plan_type;
    }
    if let Some(expiry) = subscription_expires_at {
        account.subscription_expires_at = expiry;
    }
    let updated = account.clone();
    proof {
        let account = old(store)@.accounts[index as int];
        let changed = model::with_metadata(account, change);
        model::lemma_with_account(old(store)@, account_id@, changed);
        assert(store@.accounts =~= model::with_account(old(store)@, account_id@, changed).accounts);
    }
    Ok(updated)
}

/// Add a new account to the store.
pub fn add_account(store: &mut AccountsStore, account: StoredAccount) -> (result: Result<
    StoredAccount,
    StoreError,
>)
    ensures
        match model::added(old(store)@, account@) {
            Ok(added) => {
                &&& result matches Ok(stored)
                &&& stored@ == account@
                &&& final(store)@ == added
            },
            Err(error) => {
                &&& result matches Err(e)
                &&& e@ == error
                &&& final(store)@ == old(store)@
            },
        },
{
    let mut i: usize = 0;
    while i < store.accounts.len()
        invariant
            *store == *old(store),
            i <= store.accounts.len(),
            forall|j: int| 0 <= j < i ==> store.accounts@[j].name@ != account.name@,
        decreases store.accounts.len() - i,
    {
        if store.accounts[i].name == account.name {
            assert(store@.accounts[i as int].name == account@.name);
            return Err(StoreFailure::NameTaken(account.name));
        }
        i += 1;
    }
    let stored = account.clone();
    store.accounts.push(account);
    assert(store@.accounts =~= old(store)@.accounts.push(account@));
    if store.accounts.len() == 1 {
        store.active_account_id = Some(stored.id.clone());
    }
    Ok(stored)
}

/// Remove an account by ID.
pub fn remove_account(store: &mut AccountsStore, account_id: &str) -> (result: Result<
    (),
    StoreError,
>)
    ensures
        match model::removed(old(store)@, account_id@) {
            Ok(removed) => {
                &&& result is Ok
                &&& final(store)@ == removed
            },
            Err(error) => {
                &&& result matches Err(e)
                &&& e@ == error
                &&& final(store)@ == old(store)@
            },
        },
{
    let account_id = account_id.to_string();
    let initial_len = store.accounts.len();
    retain_others(&mut store.accounts, &account_id);
    if store.accounts.len() == initial_len {
        return Err(StoreFailure::AccountNotFound(account_id));
    }
    let was_active = match &store.active_account_id {
        Some(active) => *active == account_id,
        None => false,
    };
    if was_active {
        store.active_account_id = if store.accounts.len() == 0 {
            None
        } else {
            Some(store.accounts[0].id.clone())
        };
    }
    Ok(())
}

/// Keep the accounts that do not have the id.
fn retain_others(accounts: &mut Vec<StoredAccount>, account_id: &String)
    ensures
        types::account_views(final(accounts)@) == model::without_id(
            types::account_views(old(accounts)@),
            account_id@,
        ),
        !model::has_id(types::account_views(old(accounts)@), account_id@) ==> types::account_views(
            final(accounts)@,
        ) == types::account_views(old(accounts)@),
        final(accounts)@.len() == old(accounts)@.len() <==> !model::has_id(
            types::account_views(old(accounts)@),
            account_id@,
        ),
{
    let ghost all = types::account_views(accounts@);
    let mut i: usize = 0;
    let ghost mut seen: int = 0;
    while i < accounts.len()
        invariant
            0 <= i <= accounts.len(),
            i <= seen,
            accounts.len() - i == all.len() - seen,
            all == types::account_views(old(accounts)@),
            types::account_views(accounts@).take(i as int) == model::without_id(
                all.take(seen),
                account_id@,
            ),
            types::account_views(accounts@).skip(i as int) == all.skip(seen),
        decreases accounts.len() - i,
    {
        let ghost before = types::account_views(accounts@);
        assert(before[i as int] == before.skip(i as int)[0]);
        assert(all[seen] == all.skip(seen)[0]);
        proof {
            model::lemma_without_id_step(all, account_id@, seen);
        }
        if accounts[i].id == *account_id {
            accounts.remove(i);
            assert(types::account_views(accounts@) =~= before.remove(i as int));
            assert(before.remove(i as int).take(i as int) =~= before.take(i as int));
            assert(before.remove(i as int).skip(i as int) =~= before.skip(i as int).skip(1));
        } else {
            i += 1;
            assert(before.take(i as int) =~= before.take(i - 1).push(before[i - 1]));
            assert(before.skip(i as int) =~= before.skip(i - 1).skip(1));
        }
        assert(all.skip(seen + 1) =~= all.skip(seen).skip(1));
        proof {
            seen = seen + 1;
        }
    }
    proof {
        assert(all.take(seen) =~= all);
        assert(types::account_views(accounts@).take(i as int) =~= types::account_views(accounts@));
        model::lemma_without_id(all, account_id@);
    }
}

/// The account that is to become active, whose credentials are to be put in use
/// before [`set_active_account`] records it.
pub fn account_to_activate(store: &AccountsStore, account_id: &str) -> (result: Result<
    StoredAccount,
    StoreError,
>)
    ensures
        match model::account_with_id(store@.accounts, account_id@) {
            Some(account) => result matches Ok(found) && found@ == account,
            None => result matches Err(e) && e@ == ErrorView::AccountNotFound(account_id@),
        },
{
    let account_id = account_id.to_string();
    match find_index(&store.accounts, &account_id) {
        Some(index) => {
            proof {
                model::lemma_position_is(store@.accounts, account_id@, index as int);
            }
            Ok(store.accounts[index].clone())
        },
        None => Err(StoreFailure::AccountNotFound(account_id)),
    }
}

/// Make an account active, as used at `now`.
pub fn set_active_account_at(
    store: &mut AccountsStore,
    account_id: &str,
    now: Timestamp,
) -> (result: Result<(), StoreError>)
    ensures
        if model::has_id(old(store)@.accounts, account_id@) {
            &&& result is Ok
            &&& final(store)@ == model::activated(old(store)@, account_id@, now)
        } else {
            &&& result matches Err(e)
            &&& e@ == ErrorView::AccountNotFound(account_id@)
            &&& final(store)@ == old(store)@
        },
{
    let account_id = account_id.to_string();
    let index = match find_index(&store.accounts, &account_id) {
        Some(index) => index,
        None => return Err(StoreFailure::AccountNotFound(account_id)),
    };
    proof {
        model::lemma_position_is(store@.accounts, account_id@, index as int);
    }
    store.accounts[index].last_used_at = Some(now);
    assert(store@.accounts =~= model::activated(old(store)@, account_id@, now).accounts);
    store.active_account_id = Some(account_id);
    Ok(())
}

/// Activate an account and record its use in one update.
///
/// `switched` says whether its credentials were put in use. The time of use is
/// the time of the call.
pub fn set_active_account<E>(
    store: &mut AccountsStore,
    account_id: &str,
    switched: Result<(), E>,
) -> (result: Result<(), Failure<E>>)
    ensures
        if !model::has_id(old(store)@.accounts, account_id@) {
            &&& result matches Err(Failure::Store(e))
            &&& e@ == ErrorView::AccountNotFound(account_id@)
            &&& final(store)@ == old(store)@
        } else {
            match switched {
                Err(error) => {
                    &&& result == Err::<(), Failure<E>>(Failure::Outside(error))
                    &&& final(store)@ == old(store)@
                },
                Ok(()) => {
                    &&& result is Ok
                    &&& exists|now: Timestamp|
                        {
                            &&& clock::is_clock_reading(now)
                            &&& now.nanos < 1_000_000_000
                            &&& final(store)@ == #[trigger] model::activated(
                                old(store)@,
                                account_id@,
                                now,
                            )
                        }
                },
            }
        },
{
    let wanted = account_id.to_string();
    match find_index(&store.accounts, &wanted) {
        Some(_) => {},
        None => return Err(Failure::Store(StoreFailure::AccountNotFound(wanted))),
    }
    match switched {
        Ok(()) => {
            let now = utc_now();
            proof {
                clock::law_readings_come_from_the_clock(now);
            }
            match set_active_account_at(store, account_id, now) {
                Ok(()) => Ok(()),
                Err(error) => Err(Failure::Store(error)),
            }
        },
        Err(error) => Err(Failure::Outside(error)),
    }
}

/// Set the list of masked account IDs.
pub fn set_masked_account_ids(store: &mut AccountsStore, ids: Vec<String>)
    ensures
        final(store)@ == model::masked_set(old(store)@, types::texts(ids@)),
{
    store.masked_account_ids = ids;
}

/// What a reader finds behind the snapshot lock.
#[derive(Debug)]
pub enum Snapshot<'a> {
    /// There is no store yet.
    Uninitialized,
    /// A writer died while it held the lock: what the lock reports.
    Poisoned(String),
    /// The store as it was last published.
    Available(&'a AccountsStore),
}

/// What a read of the snapshot gives.
pub open spec fn snapshot_read(snapshot: Snapshot<'_>) -> Result<StoreView, ErrorView> {
    match snapshot {
        Snapshot::Uninitialized => Err(StoreFailure::NotInitialized),
        Snapshot::Poisoned(report) => Err(StoreFailure::SnapshotPoisoned(report@)),
        Snapshot::Available(store) => Ok(store@),
    }
}

/// Return the published in-memory snapshot without disk I/O.
pub fn load_accounts(snapshot: Snapshot<'_>) -> (result: Result<AccountsStore, StoreError>)
    ensures
        match snapshot_read(snapshot) {
            Ok(store) => result matches Ok(loaded) && loaded@ == store,
            Err(error) => result matches Err(e) && e@ == error,
        },
{
    match snapshot {
        Snapshot::Uninitialized => Err(StoreFailure::NotInitialized),
        Snapshot::Poisoned(report) => Err(StoreFailure::SnapshotPoisoned(report)),
        Snapshot::Available(store) => Ok(store.clone()),
    }
}

/// The view of an optional account.
pub open spec fn optional_view(account: Option<StoredAccount>) -> Option<AccountView> {
    match account {
        Some(account) => Some(account@),
        None => None,
    }
}

/// Get an account by ID.
pub fn get_account(snapshot: Snapshot<'_>, account_id: &str) -> (result: Result<
    Option<StoredAccount>,
    StoreError,
>)
    ensures
        match snapshot_read(snapshot) {
            Ok(store) => {
                &&& result matches Ok(found)
                &&& optional_view(found) == model::account_with_id(store.accounts, account_id@)
            },
            Err(error) => result matches Err(e) && e@ == error,
        },
{
    let mut store = match load_accounts(snapshot) {
        Ok(store) => store,
        Err(error) => return Err(error),
    };
    let account_id = account_id.to_string();
    match find_index(&store.accounts, &account_id) {
        Some(index) => {
            proof {
                model::lemma_position_is(store@.accounts, account_id@, index as int);
            }
            Ok(Some(store.accounts.swap_remove(index)))
        },
        None => Ok(None),
    }
}

/// Get the currently active account.
pub fn get_active_account(snapshot: Snapshot<'_>) -> (result: Result<
    Option<StoredAccount>,
    StoreError,
>)
    ensures
        match snapshot_read(snapshot) {
            Ok(store) => {
                &&& result matches Ok(found)
                &&& optional_view(found) == model::active_account(store)
            },
            Err(error) => result matches Err(e) && e@ == error,
        },
{
    let mut store = match load_accounts(snapshot) {
        Ok(store) => store,
        Err(error) => return Err(error),
    };
    let active_id = match &store.active_account_id {
        Some(id) => id,
        None => return Ok(None),
    };
    match find_index(&store.accounts, active_id) {
        Some(index) => {
            proof {
                model::lemma_position_is(store@.accounts, active_id@, index as int);
            }
            Ok(Some(store.accounts.swap_remove(index)))
        },
        None => Ok(None),
    }
}

/// Get the list of masked account IDs.
pub fn get_masked_account_ids(snapshot: Snapshot<'_>) -> (result: Result<Vec<String>, StoreError>)
    ensures
        match snapshot_read(snapshot) {
            Ok(store) => result matches Ok(ids) && types::texts(ids@) == store.masked,
            Err(error) => result matches Err(e) && e@ == error,
        },
{
    match load_accounts(snapshot) {
        Ok(store) => Ok(store.masked_account_ids),
        Err(error) => Err(error),
    }
}

} // verus!

//! What each operation does, said of the store before and after it: which
//! accounts stand where, which id is active, what each field holds, and on which
//! stores the operation is refused.

use crate::error::ErrorView;
use crate::model;
use crate::model::{MetadataView, TokensView};
use crate::storage;
use crate::storage::Snapshot;
use crate::types;
use crate::types::{
    AccountView, AccountsStore, AuthData, AuthView, StoreView, StoredAccount, Timestamp,
};
use crate::writer;
use crate::writer::{CopiesView, StoreCopies, WorkerAction, WorkerEvent, WorkerMode};
use vstd::prelude::*;

verus! {

// ---- What a view shows ----

/// The view of an account shows each of its fields.
pub proof fn law_account_view_shows_every_field(account: StoredAccount)
    ensures
        account@.id == account.id@,
        account@.name == account.name@,
        match account.email {
            Some(email) => account@.email == Some(email@),
            None => account@.email is None,
        },
        match account.plan_type {
            Some(plan_type) => account@.plan_type == Some(plan_type@),
            None => account@.plan_type is None,
        },
        account@.subscription_expires_at == account.subscription_expires_at,
        account@.last_used_at == account.last_used_at,
        match account.auth_data {
            AuthData::ChatGPT { id_token, access_token, refresh_token, account_id } => {
                &&& account@.auth_data matches AuthView::ChatGPT {
                    id_token: i,
                    access_token: a,
                    refresh_token: r,
                    account_id: o,
                }
                &&& i == id_token@
                &&& a == access_token@
                &&& r == refresh_token@
                &&& match account_id {
                    Some(organization) => o == Some(organization@),
                    None => o is None,
                }
            },
            AuthData::ApiKey { key } => account@.auth_data == (AuthView::ApiKey { key: key@ }),
        },
{
}

/// The view of a store shows every account, the active id and every masked id, in
/// their order.
pub proof fn law_store_view_shows_everything(store: AccountsStore)
    ensures
        store@.accounts.len() == store.accounts@.len(),
        forall|i: int|
            0 <= i < store.accounts@.len() ==> #[trigger] store@.accounts[i] == store.accounts@[i]@,
        match store.active_account_id {
            Some(id) => store@.active == Some(id@),
            None => store@.active is None,
        },
        store@.masked.len() == store.masked_account_ids@.len(),
        forall|i: int|
            0 <= i < store.masked_account_ids@.len() ==> #[trigger] store@.masked[i]
                == store.masked_account_ids@[i]@,
{
}

/// The view of the two copies shows each of them under its name.
pub proof fn law_copies_view_shows_both(copies: StoreCopies)
    ensures
        copies@.current == copies.current@,
        copies@.snapshot == copies.snapshot@,
{
}

/// The texts of strings and optional strings are their characters.
pub proof fn law_texts_are_characters(value: Option<String>, values: Seq<String>)
    ensures
        match value {
            Some(s) => types::text(value) == Some(s@),
            None => types::text(value) is None,
        },
        types::texts(values).len() == values.len(),
        forall|i: int| 0 <= i < values.len() ==> #[trigger] types::texts(values)[i] == values[i]@,
{
}

/// A store that nothing was added to has no account, no active id and no masked
/// one.
pub proof fn law_empty_store_is_empty()
    ensures
        types::empty_store().accounts.len() == 0,
        types::empty_store().active is None,
        types::empty_store().masked.len() == 0,
{
}

// ---- Finding accounts ----

/// An id or a name is in use exactly where some account has it.
pub proof fn law_ids_and_names_in_use(
    accounts: Seq<AccountView>,
    id: Seq<char>,
    name: Seq<char>,
)
    ensures
        model::has_id(accounts, id) <==> exists|i: int|
            0 <= i < accounts.len() && (#[trigger] accounts[i]).id == id,
        model::has_name(accounts, name) <==> exists|i: int|
            0 <= i < accounts.len() && (#[trigger] accounts[i]).name == name,
        model::name_taken_from(accounts, id, name) <==> exists|i: int|
            0 <= i < accounts.len() && (#[trigger] accounts[i]).id != id && accounts[i].name
                == name,
{
}

/// Looking an id up gives the first account that has it, and nothing exactly where
/// no account has it.
pub proof fn law_lookup_gives_the_first_with_the_id(accounts: Seq<AccountView>, id: Seq<char>)
    ensures
        match model::account_with_id(accounts, id) {
            Some(found) => exists|p: int|
                {
                    &&& 0 <= p < accounts.len()
                    &&& #[trigger] accounts[p] == found
                    &&& found.id == id
                    &&& forall|j: int| 0 <= j < p ==> (#[trigger] accounts[j]).id != id
                },
            None => forall|i: int| 0 <= i < accounts.len() ==> (#[trigger] accounts[i]).id != id,
        },
{
    if model::has_id(accounts, id) {
        model::lemma_position(accounts, id);
        let p = model::position_of(accounts, id);
        assert(accounts[p] == accounts[p]);
    }
}

/// The active account is the first one that has the active id; there is none
/// exactly where no id is active or no account has it.
pub proof fn law_active_account_has_the_active_id(store: StoreView)
    ensures
        match model::active_account(store) {
            Some(found) => {
                &&& store.active == Some(found.id)
                &&& exists|p: int|
                    {
                        &&& 0 <= p < store.accounts.len()
                        &&& #[trigger] store.accounts[p] == found
                        &&& forall|j: int|
                            0 <= j < p ==> (#[trigger] store.accounts[j]).id != found.id
                    }
            },
            None => store.active matches Some(id) ==> forall|i: int|
                0 <= i < store.accounts.len() ==> (#[trigger] store.accounts[i]).id != id,
        },
{
    if store.active is Some {
        law_lookup_gives_the_first_with_the_id(store.accounts, store.active->0);
    }
}

/// A read gives the published store as it is, and fails only where there is no
/// store yet or the lock is poisoned.
pub proof fn law_reads_give_the_published_store(store: AccountsStore, report: String)
    ensures
        storage::snapshot_read(Snapshot::Available(&store)) == Ok::<StoreView, ErrorView>(store@),
        storage::snapshot_read(Snapshot::Uninitialized) == Err::<StoreView, ErrorView>(
            ErrorView::NotInitialized,
        ),
        storage::snapshot_read(Snapshot::Poisoned(report)) == Err::<StoreView, ErrorView>(
            ErrorView::SnapshotPoisoned(report@),
        ),
{
}

/// What was found is shown as it is.
pub proof fn law_found_account_is_shown(account: StoredAccount)
    ensures
        storage::optional_view(Some(account)) == Some(account@),
        storage::optional_view(None) is None,
{
}

// ---- Adding ----

/// Adding succeeds exactly where no account has the name. Every account that was
/// there stays in its place, the new one comes last as it was given, and masked ids
/// stay.
pub proof fn law_add_puts_the_account_last(store: StoreView, account: AccountView)
    ensures
        match model::added(store, account) {
            Ok(after) => {
                &&& forall|i: int|
                    0 <= i < store.accounts.len() ==> (#[trigger] store.accounts[i]).name
                        != account.name
                &&& after.accounts.len() == store.accounts.len() + 1
                &&& forall|i: int|
                    0 <= i < store.accounts.len() ==> #[trigger] after.accounts[i]
                        == store.accounts[i]
                &&& after.accounts[store.accounts.len() as int] == account
                &&& after.masked == store.masked
            },
            Err(error) => {
                &&& error == ErrorView::NameTaken(account.name)
                &&& exists|i: int|
                    0 <= i < store.accounts.len() && (#[trigger] store.accounts[i]).name
                        == account.name
            },
        },
{
}

/// Where the store already has an account, adding one leaves the active id as it
/// was, whatever kind of account is added. Where it has none, the active id becomes
/// that of the added account.
pub proof fn law_add_keeps_the_active_account(store: StoreView, account: AccountView)
    ensures
        model::added(store, account) matches Ok(after) ==> {
            &&& store.accounts.len() > 0 ==> after.active == store.active
            &&& store.accounts.len() == 0 ==> after.active == Some(account.id)
        },
{
}

// ---- Removing ----

/// Removing an id succeeds exactly where some account of the store has it.
pub proof fn law_remove_succeeds_where_the_id_is_in_use(store: StoreView, id: Seq<char>)
    ensures
        model::removed(store, id) is Ok <==> exists|i: int|
            0 <= i < store.accounts.len() && (#[trigger] store.accounts[i]).id == id,
        model::removed(store, id) matches Err(error) ==> error == ErrorView::AccountNotFound(id),
{
}

/// The positions of the accounts that are kept where an id is left out.
proof fn lemma_kept_positions(accounts: Seq<AccountView>, id: Seq<char>) -> (kept: Seq<int>)
    ensures
        kept.len() == model::without_id(accounts, id).len(),
        forall|k: int|
            0 <= k < kept.len() ==> {
                &&& 0 <= #[trigger] kept[k] < accounts.len()
                &&& model::without_id(accounts, id)[k] == accounts[kept[k]]
                &&& accounts[kept[k]].id != id
            },
        forall|k: int, l: int| 0 <= k < l < kept.len() ==> #[trigger] kept[k] < #[trigger] kept[l],
        forall|i: int|
            0 <= i < accounts.len() && (#[trigger] accounts[i]).id != id ==> kept.contains(i),
    decreases accounts.len(),
{
    reveal(Seq::filter);
    if accounts.len() == 0 {
        Seq::empty()
    } else {
        let front = accounts.drop_last();
        let last = accounts.len() - 1;
        let front_kept = lemma_kept_positions(front, id);
        assert(forall|i: int| 0 <= i < front.len() ==> front[i] == accounts[i]);
        if accounts[last].id == id {
            assert forall|i: int| 0 <= i < accounts.len() && (#[trigger] accounts[i]).id != id
                implies front_kept.contains(i) by {
                assert(front[i].id != id);
            }
            front_kept
        } else {
            let kept = front_kept.push(last);
            assert forall|i: int| 0 <= i < accounts.len() && (#[trigger] accounts[i]).id != id
                implies kept.contains(i) by {
                if i < last {
                    assert(front[i].id != id);
                    let k = choose|k: int| 0 <= k < front_kept.len() && front_kept[k] == i;
                    assert(kept[k] == i);
                } else {
                    assert(kept[front_kept.len() as int] == i);
                }
            }
            kept
        }
    }
}

/// Removing an id takes out every account that has it and no other: those that
/// are left are all accounts with other ids, as they were and in their order.
/// Masked ids stay.
pub proof fn law_remove_keeps_all_others_in_order(store: StoreView, id: Seq<char>)
    ensures
        model::removed(store, id) matches Ok(after) ==> {
            &&& after.masked == store.masked
            &&& forall|k: int|
                0 <= k < after.accounts.len() ==> (#[trigger] after.accounts[k]).id != id
            &&& exists|kept: Seq<int>|
                {
                    &&& #[trigger] kept.len() == after.accounts.len()
                    &&& forall|k: int|
                        0 <= k < kept.len() ==> 0 <= #[trigger] kept[k] < store.accounts.len()
                            && after.accounts[k] == store.accounts[kept[k]]
                    &&& forall|k: int, l: int|
                        0 <= k < l < kept.len() ==> #[trigger] kept[k] < #[trigger] kept[l]
                    &&& forall|i: int|
                        0 <= i < store.accounts.len() && (#[trigger] store.accounts[i]).id != id
                            ==> kept.contains(i)
                }
        },
{
    if model::removed(store, id) is Ok {
        let kept = lemma_kept_positions(store.accounts, id);
        let after = model::removed(store, id)->Ok_0;
        assert(kept.len() == after.accounts.len());
        assert forall|k: int| 0 <= k < after.accounts.len() implies (
        #[trigger] after.accounts[k]).id != id by {
            assert(0 <= kept[k] < store.accounts.len());
        }
    }
}

/// Where the removed id was active, the active id becomes that of the first account
/// left, if any; else it stays as it was.
pub proof fn law_remove_moves_the_active_id(store: StoreView, id: Seq<char>)
    ensures
        model::removed(store, id) matches Ok(after) ==> {
            &&& store.active != Some(id) ==> after.active == store.active
            &&& store.active == Some(id) && after.accounts.len() > 0 ==> after.active == Some(
                after.accounts[0].id,
            )
            &&& store.active == Some(id) && after.accounts.len() == 0 ==> after.active is None
        },
{
}

// ---- Activating ----

/// Activating an account makes its id the active one and records the given time as
/// its last use, whatever use was recorded before. All else of it, every other
/// account and the masked ids stay.
pub proof fn law_activation_records_this_use(store: StoreView, id: Seq<char>, now: Timestamp)
    requires
        exists|i: int| 0 <= i < store.accounts.len() && (#[trigger] store.accounts[i]).id == id,
    ensures
        ({
            let after = model::activated(store, id, now);
            &&& after.active == Some(id)
            &&& after.masked == store.masked
            &&& after.accounts.len() == store.accounts.len()
            &&& exists|p: int|
                {
                    &&& 0 <= p < store.accounts.len()
                    &&& (#[trigger] store.accounts[p]).id == id
                    &&& forall|j: int| 0 <= j < p ==> (#[trigger] store.accounts[j]).id != id
                    &&& forall|i: int|
                        0 <= i < store.accounts.len() && i != p ==> #[trigger] after.accounts[i]
                            == store.accounts[i]
                    &&& after.accounts[p].last_used_at == Some(now)
                    &&& after.accounts[p].id == id
                    &&& after.accounts[p].name == store.accounts[p].name
                    &&& after.accounts[p].email == store.accounts[p].email
                    &&& after.accounts[p].plan_type == store.accounts[p].plan_type
                    &&& after.accounts[p].subscription_expires_at
                        == store.accounts[p].subscription_expires_at
                    &&& after.accounts[p].auth_data == store.accounts[p].auth_data
                }
        }),
{
    assert(model::has_id(store.accounts, id));
    model::lemma_position(store.accounts, id);
    let p = model::position_of(store.accounts, id);
    assert(store.accounts[p].id == id);
}

/// Two activations of an account at different times leave different stores: the
/// later use is what is recorded.
pub proof fn law_later_activation_replaces_the_earlier(
    store: StoreView,
    id: Seq<char>,
    earlier: Timestamp,
    later: Timestamp,
)
    requires
        exists|i: int| 0 <= i < store.accounts.len() && (#[trigger] store.accounts[i]).id == id,
    ensures
        model::activated(model::activated(store, id, earlier), id, later) == model::activated(
            store,
            id,
            later,
        ),
        earlier != later ==> model::activated(store, id, earlier) != model::activated(
            store,
            id,
            later,
        ),
{
    assert(model::has_id(store.accounts, id));
    model::lemma_position(store.accounts, id);
    let p = model::position_of(store.accounts, id);
    let once = model::activated(store, id, earlier);
    let account = AccountView { last_used_at: Some(earlier), ..store.accounts[p] };
    model::lemma_with_account(store, id, account);
    let direct = model::activated(store, id, later);
    assert(model::activated(once, id, later).accounts =~= direct.accounts);
    assert(once.accounts[p].last_used_at == Some(earlier));
    assert(direct.accounts[p].last_used_at == Some(later));
}

// ---- Metadata ----

/// A metadata update is refused for a name that an account with another id has,
/// else for an id that no account has, and else succeeds.
pub proof fn law_metadata_update_is_refused_where(
    store: StoreView,
    id: Seq<char>,
    change: MetadataView,
)
    ensures
        ({
            let taken = change.name matches Some(name) && exists|i: int|
                0 <= i < store.accounts.len() && (#[trigger] store.accounts[i]).id != id
                    && store.accounts[i].name == name;
            let found = exists|i: int|
                0 <= i < store.accounts.len() && (#[trigger] store.accounts[i]).id == id;
            match model::metadata_updated(store, id, change) {
                Ok(_) => !taken && found,
                Err(error) => {
                    &&& taken || !found
                    &&& taken ==> error == ErrorView::NameTaken(change.name->0)
                    &&& !taken ==> error == ErrorView::AccountMissing
                },
            }
        }),
{
}

/// After a metadata update that succeeds, the account under the id has every value
/// that was given, and in each field for which none was given the value it had. All
/// else of it, every other account, the active id and the masked ids stay.
pub proof fn law_metadata_update_sets_what_was_given(
    store: StoreView,
    id: Seq<char>,
    change: MetadataView,
)
    ensures
        model::metadata_updated(store, id, change) matches Ok(after) ==> {
            &&& after.active == store.active
            &&& after.masked == store.masked
            &&& after.accounts.len() == store.accounts.len()
            &&& exists|p: int|
                {
                    &&& 0 <= p < store.accounts.len()
                    &&& (#[trigger] store.accounts[p]).id == id
                    &&& forall|j: int| 0 <= j < p ==> (#[trigger] store.accounts[j]).id != id
                    &&& forall|i: int|
                        0 <= i < store.accounts.len() && i != p ==> #[trigger] after.accounts[i]
                            == store.accounts[i]
                    &&& match change.name {
                        Some(name) => after.accounts[p].name == name,
                        None => after.accounts[p].name == store.accounts[p].name,
                    }
                    &&& match change.email {
                        Some(email) => after.accounts[p].email == Some(email),
                        None => after.accounts[p].email == store.accounts[p].email,
                    }
                    &&& match change.plan_type {
                        Some(plan_type) => after.accounts[p].plan_type == Some(plan_type),
                        None => after.accounts[p].plan_type == store.accounts[p].plan_type,
                    }
                    &&& match change.subscription_expires_at {
                        Some(expiry) => after.accounts[p].subscription_expires_at == expiry,
                        None => after.accounts[p].subscription_expires_at
                            == store.accounts[p].subscription_expires_at,
                    }
                    &&& after.accounts[p].id == id
                    &&& after.accounts[p].auth_data == store.accounts[p].auth_data
                    &&& after.accounts[p].last_used_at == store.accounts[p].last_used_at
                }
        },
{
    if model::metadata_updated(store, id, change) is Ok {
        model::lemma_position(store.accounts, id);
        let p = model::position_of(store.accounts, id);
        assert(store.accounts[p].id == id);
    }
}

// ---- Tokens ----

/// A token update is refused for an id that no account has, and where the first
/// account with the id uses an API key; else it succeeds.
pub proof fn law_token_update_is_refused_where(
    store: StoreView,
    id: Seq<char>,
    tokens: TokensView,
)
    ensures
        match model::tokens_updated(store, id, tokens) {
            Err(ErrorView::AccountMissing) => forall|i: int|
                0 <= i < store.accounts.len() ==> (#[trigger] store.accounts[i]).id != id,
            Err(ErrorView::ApiKeyAccount) => exists|p: int|
                {
                    &&& 0 <= p < store.accounts.len()
                    &&& (#[trigger] store.accounts[p]).id == id
                    &&& forall|j: int| 0 <= j < p ==> (#[trigger] store.accounts[j]).id != id
                    &&& store.accounts[p].auth_data is ApiKey
                },
            Err(_) => false,
            Ok(_) => exists|p: int|
                {
                    &&& 0 <= p < store.accounts.len()
                    &&& (#[trigger] store.accounts[p]).id == id
                    &&& forall|j: int| 0 <= j < p ==> (#[trigger] store.accounts[j]).id != id
                    &&& store.accounts[p].auth_data is ChatGPT
                },
        },
{
    if model::has_id(store.accounts, id) {
        model::lemma_position(store.accounts, id);
        let p = model::position_of(store.accounts, id);
        assert(store.accounts[p].id == id);
    }
}

/// After a token update that succeeds, the account under the id has the new tokens,
/// and of the ChatGPT account id, the email, the plan and the expiry every value
/// that was given, and the value it had where none was given. All else of it, every
/// other account, the active id and the masked ids stay.
pub proof fn law_token_update_sets_what_was_given(
    store: StoreView,
    id: Seq<char>,
    tokens: TokensView,
)
    ensures
        model::tokens_updated(store, id, tokens) matches Ok(after) ==> {
            &&& after.active == store.active
            &&& after.masked == store.masked
            &&& after.accounts.len() == store.accounts.len()
            &&& exists|p: int|
                {
                    &&& 0 <= p < store.accounts.len()
                    &&& (#[trigger] store.accounts[p]).id == id
                    &&& forall|j: int| 0 <= j < p ==> (#[trigger] store.accounts[j]).id != id
                    &&& forall|i: int|
                        0 <= i < store.accounts.len() && i != p ==> #[trigger] after.accounts[i]
                            == store.accounts[i]
                    &&& store.accounts[p].auth_data is ChatGPT
                    &&& after.accounts[p].auth_data is ChatGPT
                    &&& after.accounts[p].auth_data->id_token == tokens.id_token
                    &&& after.accounts[p].auth_data->access_token == tokens.access_token
                    &&& after.accounts[p].auth_data->refresh_token == tokens.refresh_token
                    &&& match tokens.account_id {
                        Some(organization) => after.accounts[p].auth_data->account_id == Some(
                            organization,
                        ),
                        None => after.accounts[p].auth_data->account_id
                            == store.accounts[p].auth_data->account_id,
                    }
                    &&& match tokens.email {
                        Some(email) => after.accounts[p].email == Some(email),
                        None => after.accounts[p].email == store.accounts[p].email,
                    }
                    &&& match tokens.plan_type {
                        Some(plan_type) => after.accounts[p].plan_type == Some(plan_type),
                        None => after.accounts[p].plan_type == store.accounts[p].plan_type,
                    }
                    &&& match tokens.subscription_expires_at {
                        Some(expiry) => after.accounts[p].subscription_expires_at == Some(expiry),
                        None => after.accounts[p].subscription_expires_at
                            == store.accounts[p].subscription_expires_at,
                    }
                    &&& after.accounts[p].id == id
                    &&& after.accounts[p].name == store.accounts[p].name
                    &&& after.accounts[p].last_used_at == store.accounts[p].last_used_at
                }
        },
{
    if model::tokens_updated(store, id, tokens) is Ok {
        model::lemma_position(store.accounts, id);
        let p = model::position_of(store.accounts, id);
        assert(store.accounts[p].id == id);
    }
}

// ---- Masking ----

/// Setting the masked ids gives exactly those, and leaves the accounts and the
/// active id alone.
pub proof fn law_masked_ids_are_those_given(store: StoreView, ids: Seq<Seq<char>>)
    ensures
        model::masked_set(store, ids).masked == ids,
        model::masked_set(store, ids).accounts == store.accounts,
        model::masked_set(store, ids).active == store.active,
{
}

// ---- The writer and the worker ----

/// The writer takes a candidate over exactly where the update made one and it is on
/// the disk, and readers see it exactly where the lock was had too. What is not
/// taken over leaves the copy as it was.
pub proof fn law_copies_take_the_candidate_over(
    copies: CopiesView,
    candidate: StoreView,
    persisted: bool,
    locked: bool,
)
    ensures
        writer::copies_after(copies, None, persisted, locked) == copies,
        ({
            let after = writer::copies_after(copies, Some(candidate), persisted, locked);
            &&& persisted ==> after.current == candidate
            &&& !persisted ==> after == copies
            &&& persisted && locked ==> after.snapshot == candidate
            &&& !locked ==> after.snapshot == copies.snapshot
        }),
        persisted ==> writer::current_after(copies.current, candidate, persisted) == candidate,
        !persisted ==> writer::current_after(copies.current, candidate, persisted)
            == copies.current,
        locked ==> writer::snapshot_after(copies.snapshot, candidate, locked) == candidate,
        !locked ==> writer::snapshot_after(copies.snapshot, candidate, locked) == copies.snapshot,
{
}

/// A worker that has not ended runs every update and stays in its mode, closes the
/// queue when it is first told to stop and drains it from then on, and ends when
/// and only when the queue is exhausted.
pub proof fn law_worker_turns(mode: WorkerMode, event: WorkerEvent)
    requires
        mode != WorkerMode::Stopped,
    ensures
        ({
            let next = writer::mode_after(mode, event);
            let action = writer::action_on(mode, event);
            &&& action == WorkerAction::Execute <==> event == WorkerEvent::Update
            &&& event == WorkerEvent::Update ==> next == mode
            &&& action == WorkerAction::CloseQueue <==> event == WorkerEvent::Shutdown && mode
                == WorkerMode::Serving
            &&& event == WorkerEvent::Shutdown ==> next == WorkerMode::Draining
            &&& action == WorkerAction::Exit <==> event == WorkerEvent::Exhausted
            &&& next == WorkerMode::Stopped <==> event == WorkerEvent::Exhausted
        }),
{
}

} // verus!

//! What the operations and the writer promise together.

use crate::error::{ErrorView, StoreFailure};
use crate::model;
use crate::model::{MetadataView, TokensView};
use crate::storage;
use crate::storage::Snapshot;
use crate::types;
use crate::types::{AccountView, AuthView, StoreView, Timestamp};
use crate::writer;
use crate::writer::{CopiesView, StoreCopies, WorkerAction, WorkerEvent, WorkerMode};
use vstd::prelude::*;

verus! {

// ---- Any operation on the store ----

/// An operation on the store.
pub enum Operation {
    Add { account: AccountView },
    Remove { id: Seq<char> },
    Activate { id: Seq<char>, now: Timestamp },
    UpdateMetadata { id: Seq<char>, change: MetadataView },
    UpdateTokens { id: Seq<char>, tokens: TokensView },
    SetMasked { ids: Seq<Seq<char>> },
}

/// What an operation makes of a store.
pub open spec fn applied(store: StoreView, operation: Operation) -> Result<StoreView, ErrorView> {
    match operation {
        Operation::Add { account } => model::added(store, account),
        Operation::Remove { id } => model::removed(store, id),
        Operation::Activate { id, now } => if model::has_id(store.accounts, id) {
            Ok(model::activated(store, id, now))
        } else {
            Err(StoreFailure::AccountNotFound(id))
        },
        Operation::UpdateMetadata { id, change } => model::metadata_updated(store, id, change),
        Operation::UpdateTokens { id, tokens } => model::tokens_updated(store, id, tokens),
        Operation::SetMasked { ids } => Ok(model::masked_set(store, ids)),
    }
}

/// The store after operations, of which those that fail change nothing.
pub open spec fn after_operations(store: StoreView, operations: Seq<Operation>) -> StoreView
    decreases operations.len(),
{
    if operations.len() == 0 {
        store
    } else {
        let before = after_operations(store, operations.drop_last());
        match applied(before, operations.last()) {
            Ok(after) => after,
            Err(_) => before,
        }
    }
}

/// The active id is that of an account.
pub open spec fn active_exists(store: StoreView) -> bool {
    match store.active {
        Some(id) => model::has_id(store.accounts, id),
        None => true,
    }
}

/// Where there are accounts, one is active.
pub open spec fn active_where_any(store: StoreView) -> bool {
    store.accounts.len() > 0 ==> store.active is Some
}

/// No two accounts have the same id.
pub open spec fn unique_ids(accounts: Seq<AccountView>) -> bool {
    forall|i: int, j: int|
        0 <= i < j < accounts.len() ==> (#[trigger] accounts[i]).id != (#[trigger] accounts[j]).id
}

/// No two accounts have the same name.
pub open spec fn unique_names(accounts: Seq<AccountView>) -> bool {
    forall|i: int, j: int|
        0 <= i < j < accounts.len() ==> (#[trigger] accounts[i]).name != (
        #[trigger] accounts[j]).name
}

/// The accounts of `after` have the ids of those of `before`, in the same order.
pub open spec fn same_ids(before: Seq<AccountView>, after: Seq<AccountView>) -> bool {
    &&& before.len() == after.len()
    &&& forall|i: int| 0 <= i < before.len() ==> (#[trigger] after[i]).id == before[i].id
}

/// The id of the account that an operation changes, where it changes one.
pub open spec fn changed_id(operation: Operation) -> Option<Seq<char>> {
    match operation {
        Operation::Activate { id, .. } => Some(id),
        Operation::UpdateMetadata { id, .. } => Some(id),
        Operation::UpdateTokens { id, .. } => Some(id),
        _ => None,
    }
}

/// Activating an account and updating its metadata or tokens leaves every other
/// account as it was, and adds, removes and reorders none.
pub proof fn law_update_touches_one_account(
    store: StoreView,
    operation: Operation,
    id: Seq<char>,
)
    requires
        changed_id(operation) == Some(id),
    ensures
        applied(store, operation) matches Ok(after) ==> {
            &&& same_ids(store.accounts, after.accounts)
            &&& forall|i: int|
                0 <= i < store.accounts.len() && i != model::position_of(store.accounts, id)
                    ==> #[trigger] after.accounts[i] == store.accounts[i]
        },
{
    if applied(store, operation) is Ok {
        model::lemma_position(store.accounts, id);
    }
}

proof fn lemma_same_ids_keep(before: Seq<AccountView>, after: Seq<AccountView>, id: Seq<char>)
    requires
        same_ids(before, after),
        model::has_id(before, id),
    ensures
        model::has_id(after, id),
{
    let k = choose|i: int| 0 <= i < before.len() && (#[trigger] before[i]).id == id;
    assert(after[k].id == id);
}

/// Every operation keeps the active id that of an account, and keeps one account
/// active where there are any.
pub proof fn law_operations_keep_active(store: StoreView, operation: Operation)
    ensures
        applied(store, operation) matches Ok(after) ==> {
            &&& active_exists(store) ==> active_exists(after)
            &&& active_where_any(store) ==> active_where_any(after)
        },
{
    if applied(store, operation) is Ok {
        let after = applied(store, operation)->Ok_0;
        match operation {
            Operation::Add { account } => {
                assert(after.accounts[store.accounts.len() as int].id == account.id);
                if store.active is Some && model::has_id(store.accounts, store.active->0) {
                    let k = choose|i: int|
                        0 <= i < store.accounts.len() && (#[trigger] store.accounts[i]).id
                            == store.active->0;
                    assert(after.accounts[k].id == store.active->0);
                }
            },
            Operation::Remove { id } => {
                model::lemma_without_id(store.accounts, id);
                if after.accounts.len() > 0 {
                    assert(after.accounts[0].id == after.accounts[0].id);
                }
                if store.active is Some && store.active->0 != id && model::has_id(
                    store.accounts,
                    store.active->0,
                ) {
                    let k = choose|i: int|
                        0 <= i < store.accounts.len() && (#[trigger] store.accounts[i]).id
                            == store.active->0;
                    assert(store.accounts.contains(store.accounts[k]));
                    assert(after.accounts.contains(store.accounts[k]));
                }
            },
            Operation::Activate { id, .. } => {
                law_update_touches_one_account(store, operation, id);
                lemma_same_ids_keep(store.accounts, after.accounts, id);
            },
            Operation::UpdateMetadata { id, .. } | Operation::UpdateTokens { id, .. } => {
                law_update_touches_one_account(store, operation, id);
                if store.active is Some && model::has_id(store.accounts, store.active->0) {
                    lemma_same_ids_keep(store.accounts, after.accounts, store.active->0);
                }
            },
            Operation::SetMasked { .. } => {},
        }
    }
}

/// In every state that operations lead to from an empty store, an account is
/// active exactly where there is one, and the active id is that of an account.
pub proof fn law_every_state_has_its_active_account(operations: Seq<Operation>)
    ensures
        ({
            let store = after_operations(types::empty_store(), operations);
            &&& store.active is Some <==> store.accounts.len() > 0
            &&& active_exists(store)
            &&& model::active_account(store) is Some <==> store.accounts.len() > 0
        }),
    decreases operations.len(),
{
    if operations.len() > 0 {
        let before = after_operations(types::empty_store(), operations.drop_last());
        law_every_state_has_its_active_account(operations.drop_last());
        law_operations_keep_active(before, operations.last());
    }
}

/// An account behind the first one with the id has that id too, and the name.
pub open spec fn name_shared_under_id(
    accounts: Seq<AccountView>,
    id: Seq<char>,
    name: Seq<char>,
) -> bool {
    exists|i: int|
        model::position_of(accounts, id) < i < accounts.len() && (#[trigger] accounts[i]).id == id
            && accounts[i].name == name
}

/// Names stay unique, unless an account is given the name of another one that
/// has the same id.
pub proof fn law_names_stay_unique(store: StoreView, operation: Operation)
    requires
        unique_names(store.accounts),
        operation matches Operation::UpdateMetadata { id, change } ==> (change.name matches Some(
            name,
        ) ==> !name_shared_under_id(store.accounts, id, name)),
    ensures
        applied(store, operation) matches Ok(after) ==> unique_names(after.accounts),
{
    if applied(store, operation) is Ok {
        let after = applied(store, operation)->Ok_0;
        match operation {
            Operation::Add { .. } | Operation::SetMasked { .. } => {},
            Operation::Remove { id } => {
                lemma_without_id_keeps_unique(store.accounts, id);
            },
            Operation::Activate { id, .. } | Operation::UpdateTokens { id, .. } => {
                law_update_touches_one_account(store, operation, id);
                model::lemma_position(store.accounts, id);
                assert(forall|i: int|
                    0 <= i < store.accounts.len() ==> (#[trigger] after.accounts[i]).name
                        == store.accounts[i].name);
            },
            Operation::UpdateMetadata { id, .. } => {
                law_update_touches_one_account(store, operation, id);
                model::lemma_position(store.accounts, id);
                assert forall|i: int, j: int| 0 <= i < j < after.accounts.len() implies (
                #[trigger] after.accounts[i]).name != (#[trigger] after.accounts[j]).name by {
                    assert(store.accounts[i].name != store.accounts[j].name);
                }
            },
        }
    }
}

/// Ids stay unique where every account is added under a new one.
pub proof fn law_ids_stay_unique(store: StoreView, operation: Operation)
    requires
        unique_ids(store.accounts),
        operation matches Operation::Add { account } ==> !model::has_id(
            store.accounts,
            account.id,
        ),
    ensures
        applied(store, operation) matches Ok(after) ==> unique_ids(after.accounts),
{
    if applied(store, operation) is Ok {
        match operation {
            Operation::Add { .. } | Operation::SetMasked { .. } => {},
            Operation::Remove { id } => {
                lemma_without_id_keeps_unique(store.accounts, id);
            },
            Operation::Activate { id, .. } | Operation::UpdateMetadata { id, .. }
            | Operation::UpdateTokens { id, .. } => {
                law_update_touches_one_account(store, operation, id);
                let after = applied(store, operation)->Ok_0;
                assert forall|i: int, j: int| 0 <= i < j < after.accounts.len() implies (
                #[trigger] after.accounts[i]).id != (#[trigger] after.accounts[j]).id by {
                    assert(store.accounts[i].id != store.accounts[j].id);
                }
            },
        }
    }
}

/// Every account that the operations add to the store has a new id at its turn.
pub open spec fn adds_new_ids(store: StoreView, operations: Seq<Operation>) -> bool
    decreases operations.len(),
{
    operations.len() == 0 || {
        let front = operations.drop_last();
        &&& adds_new_ids(store, front)
        &&& operations.last() matches Operation::Add { account } ==> !model::has_id(
            after_operations(store, front).accounts,
            account.id,
        )
    }
}

/// In every state that operations lead to from an empty store, where accounts
/// are added under new ids, no two accounts share an id or a name.
pub proof fn law_every_state_has_unique_names(operations: Seq<Operation>)
    requires
        adds_new_ids(types::empty_store(), operations),
    ensures
        unique_ids(after_operations(types::empty_store(), operations).accounts),
        unique_names(after_operations(types::empty_store(), operations).accounts),
    decreases operations.len(),
{
    if operations.len() > 0 {
        let before = after_operations(types::empty_store(), operations.drop_last());
        law_every_state_has_unique_names(operations.drop_last());
        law_ids_stay_unique(before, operations.last());
        if operations.last() is UpdateMetadata {
            let id = operations.last()->UpdateMetadata_id;
            if model::has_id(before.accounts, id) {
                model::lemma_position(before.accounts, id);
                law_names_stay_unique(before, operations.last());
            }
        } else {
            law_names_stay_unique(before, operations.last());
        }
    }
}

proof fn lemma_without_id_keeps_unique(accounts: Seq<AccountView>, id: Seq<char>)
    ensures
        unique_ids(accounts) ==> unique_ids(model::without_id(accounts, id)),
        unique_names(accounts) ==> unique_names(model::without_id(accounts, id)),
    decreases accounts.len(),
{
    reveal(Seq::filter);
    if accounts.len() > 0 {
        let front = accounts.drop_last();
        let last = accounts.last();
        let front_kept = model::without_id(front, id);
        lemma_without_id_keeps_unique(front, id);
        model::lemma_without_id(front, id);
        assert forall|i: int| 0 <= i < front_kept.len() implies {
            &&& unique_ids(accounts) ==> (#[trigger] front_kept[i]).id != last.id
            &&& unique_names(accounts) ==> front_kept[i].name != last.name
        } by {
            assert(front_kept.contains(front_kept[i]));
            let k = choose|k: int| 0 <= k < front.len() && front[k] == front_kept[i];
            assert(accounts[k] == front_kept[i]);
        }
        assert(unique_ids(accounts) ==> unique_ids(front)) by {
            assert(forall|i: int| 0 <= i < front.len() ==> front[i] == accounts[i]);
        }
        assert(unique_names(accounts) ==> unique_names(front)) by {
            assert(forall|i: int| 0 <= i < front.len() ==> front[i] == accounts[i]);
        }
    }
}

// ---- Adding, removing and finding ----

proof fn lemma_find_in_push(accounts: Seq<AccountView>, account: AccountView, id: Seq<char>)
    ensures
        model::account_with_id(accounts.push(account), id) == if model::has_id(accounts, id) {
            model::account_with_id(accounts, id)
        } else if account.id == id {
            Some(account)
        } else {
            None
        },
{
    let pushed = accounts.push(account);
    if model::has_id(accounts, id) {
        model::lemma_position(accounts, id);
        let p = model::position_of(accounts, id);
        assert(model::is_first_with_id(pushed, id, p)) by {
            assert(forall|i: int| 0 <= i < accounts.len() ==> pushed[i] == accounts[i]);
        }
        model::lemma_position_is(pushed, id, p);
    } else if account.id == id {
        let p = accounts.len() as int;
        assert(model::is_first_with_id(pushed, id, p)) by {
            assert(forall|i: int| 0 <= i < accounts.len() ==> pushed[i] == accounts[i]);
            assert(forall|i: int| 0 <= i < accounts.len() ==> accounts[i].id != id);
        }
        model::lemma_position_is(pushed, id, p);
    } else if model::has_id(pushed, id) {
        let k = choose|i: int| 0 <= i < pushed.len() && (#[trigger] pushed[i]).id == id;
        assert(accounts[k].id == id);
    }
}

proof fn lemma_find_without_other(accounts: Seq<AccountView>, left_out: Seq<char>, id: Seq<char>)
    requires
        id != left_out,
    ensures
        model::account_with_id(model::without_id(accounts, left_out), id)
            == model::account_with_id(accounts, id),
        model::has_id(model::without_id(accounts, left_out), id) == model::has_id(accounts, id),
    decreases accounts.len(),
{
    reveal(Seq::filter);
    if accounts.len() > 0 {
        let front = accounts.drop_last();
        lemma_find_without_other(front, left_out, id);
        lemma_find_in_push(front, accounts.last(), id);
        assert(front.push(accounts.last()) =~= accounts);
        lemma_find_in_push(model::without_id(front, left_out), accounts.last(), id);
    }
}

/// An added account is found under its id, unless an earlier one has the same,
/// and every account that was found before is found as before.
pub proof fn law_added_account_is_found(store: StoreView, account: AccountView, id: Seq<char>)
    ensures
        model::added(store, account) matches Ok(after) ==> model::account_with_id(
            after.accounts,
            id,
        ) == if model::has_id(store.accounts, id) {
            model::account_with_id(store.accounts, id)
        } else if account.id == id {
            Some(account)
        } else {
            None
        },
{
    lemma_find_in_push(store.accounts, account, id);
}

/// A removed account is not found any more, and every other is found as before.
pub proof fn law_removed_account_is_gone(store: StoreView, removed: Seq<char>, id: Seq<char>)
    ensures
        model::removed(store, removed) matches Ok(after) ==> model::account_with_id(
            after.accounts,
            id,
        ) == if id == removed {
            None
        } else {
            model::account_with_id(store.accounts, id)
        },
{
    if id == removed {
        model::lemma_without_id(store.accounts, id);
    } else {
        lemma_find_without_other(store.accounts, removed, id);
    }
}

/// Removing an account that was just added under a new id gives the store back
/// as it was, unless the store was empty with an active id or the new id was
/// active before.
pub proof fn law_remove_undoes_add(store: StoreView, account: AccountView)
    requires
        !model::has_id(store.accounts, account.id),
        store.active != Some(account.id),
        store.accounts.len() == 0 ==> store.active is None,
    ensures
        model::added(store, account) matches Ok(after) ==> model::removed(after, account.id) == Ok::<
            StoreView,
            ErrorView,
        >(store),
{
    if model::added(store, account) is Ok {
        let after = model::added(store, account)->Ok_0;
        assert(after.accounts[store.accounts.len() as int].id == account.id);
        model::lemma_without_id_step(after.accounts, account.id, store.accounts.len() as int);
        assert(after.accounts.take(store.accounts.len() as int) =~= store.accounts);
        assert(after.accounts.take(after.accounts.len() as int) =~= after.accounts);
        model::lemma_without_id(store.accounts, account.id);
    }
}

/// Where the active account is removed, the first one that is left becomes
/// active; else the active account stays as it is.
pub proof fn law_removal_passes_activity_on(store: StoreView, id: Seq<char>)
    ensures
        model::removed(store, id) matches Ok(after) ==> {
            &&& store.active == Some(id) ==> model::active_account(after)
                == if after.accounts.len() == 0 {
                None
            } else {
                Some(after.accounts[0])
            }
            &&& store.active != Some(id) ==> model::active_account(after) == model::active_account(
                store,
            )
        },
{
    if model::removed(store, id) is Ok {
        let after = model::removed(store, id)->Ok_0;
        if store.active == Some(id) {
            if after.accounts.len() > 0 {
                model::lemma_position_is(after.accounts, after.accounts[0].id, 0);
            }
        } else if store.active is Some {
            lemma_find_without_other(store.accounts, id, store.active->0);
        }
    }
}

// ---- Activating and updating ----

/// An account that was made active is the active account, with the time of its
/// use and otherwise as it was.
pub proof fn law_activated_account_is_active(store: StoreView, id: Seq<char>, now: Timestamp)
    requires
        model::has_id(store.accounts, id),
    ensures
        model::active_account(model::activated(store, id, now)) == Some(
            AccountView {
                last_used_at: Some(now),
                ..model::account_with_id(store.accounts, id)->0
            },
        ),
{
    let account = store.accounts[model::position_of(store.accounts, id)];
    model::lemma_position(store.accounts, id);
    model::lemma_with_account(store, id, AccountView { last_used_at: Some(now), ..account });
}

/// A metadata update without any new value changes nothing.
pub proof fn law_empty_change_keeps_store(store: StoreView, id: Seq<char>)
    requires
        model::has_id(store.accounts, id),
    ensures
        model::metadata_updated(
            store,
            id,
            MetadataView {
                name: None,
                email: None,
                plan_type: None,
                subscription_expires_at: None,
            },
        ) == Ok::<StoreView, ErrorView>(store),
{
    model::lemma_position(store.accounts, id);
    let account = store.accounts[model::position_of(store.accounts, id)];
    assert(model::with_account(store, id, account).accounts =~= store.accounts);
}

/// A metadata update that is made once more changes nothing more.
pub proof fn law_metadata_update_is_idempotent(
    store: StoreView,
    id: Seq<char>,
    change: MetadataView,
)
    ensures
        model::metadata_updated(store, id, change) matches Ok(after) ==> model::metadata_updated(
            after,
            id,
            change,
        ) == Ok::<StoreView, ErrorView>(after),
{
    if model::metadata_updated(store, id, change) is Ok {
        let after = model::metadata_updated(store, id, change)->Ok_0;
        model::lemma_position(store.accounts, id);
        let p = model::position_of(store.accounts, id);
        let changed = model::with_metadata(store.accounts[p], change);
        model::lemma_with_account(store, id, changed);
        assert(after.accounts[p].id == id);
        if change.name is Some && model::name_taken_from(after.accounts, id, change.name->0) {
            let k = choose|i: int|
                0 <= i < after.accounts.len() && (#[trigger] after.accounts[i]).id != id
                    && after.accounts[i].name == change.name->0;
            assert(store.accounts[k].id != id);
        }
        assert(model::with_metadata(changed, change) =~= changed);
        assert(after.accounts.update(p, changed) =~= after.accounts);
    }
}

/// New tokens are the tokens of the account, whose id, name and last use they
/// leave alone, and giving them once more changes nothing more.
pub proof fn law_token_update_stores_tokens(store: StoreView, id: Seq<char>, tokens: TokensView)
    ensures
        model::tokens_updated(store, id, tokens) matches Ok(after) ==> {
            let before = model::account_with_id(store.accounts, id)->0;
            let account = model::account_with_id(after.accounts, id)->0;
            &&& account.auth_data matches AuthView::ChatGPT {
                id_token,
                access_token,
                refresh_token,
                account_id,
            }
            &&& id_token == tokens.id_token
            &&& access_token == tokens.access_token
            &&& refresh_token == tokens.refresh_token
            &&& tokens.account_id is Some ==> account_id == tokens.account_id
            &&& account.id == before.id
            &&& account.name == before.name
            &&& account.last_used_at == before.last_used_at
            &&& after.active == store.active
            &&& model::tokens_updated(after, id, tokens) == Ok::<StoreView, ErrorView>(after)
        },
{
    if model::tokens_updated(store, id, tokens) is Ok {
        let after = model::tokens_updated(store, id, tokens)->Ok_0;
        model::lemma_position(store.accounts, id);
        let p = model::position_of(store.accounts, id);
        let changed = model::with_tokens(store.accounts[p], tokens);
        model::lemma_with_account(store, id, changed);
        assert(after.accounts[p].id == id);
        assert(model::with_tokens(changed, tokens) =~= changed);
        assert(after.accounts.update(p, changed) =~= after.accounts);
    }
}

/// The masked ids and the accounts are independent: setting the one leaves the
/// other alone.
pub proof fn law_masked_ids_are_apart(store: StoreView, operation: Operation)
    ensures
        applied(store, operation) matches Ok(after) ==> match operation {
            Operation::SetMasked { ids } => after.masked == ids && after.accounts == store.accounts
                && after.active == store.active,
            _ => after.masked == store.masked,
        },
{
}

// ---- The single writer ----

/// An update that reaches the writer: what it makes of a store, where it does
/// not fail, and how writing the file and taking the lock go.
pub struct Attempt {
    pub update: spec_fn(StoreView) -> Option<StoreView>,
    pub persisted: bool,
    pub locked: bool,
}

/// The copies after an attempt.
pub open spec fn after_attempt(copies: CopiesView, attempt: Attempt) -> CopiesView {
    writer::copies_after(
        copies,
        (attempt.update)(copies.current),
        attempt.persisted,
        attempt.locked,
    )
}

/// The copies after attempts, one at a time in their order.
pub open spec fn after_attempts(copies: CopiesView, attempts: Seq<Attempt>) -> CopiesView
    decreases attempts.len(),
{
    if attempts.len() == 0 {
        copies
    } else {
        after_attempt(after_attempts(copies, attempts.drop_last()), attempts.last())
    }
}

/// Whoever asked for the update is told that it was made.
pub open spec fn acknowledged(copies: CopiesView, attempt: Attempt) -> bool {
    (attempt.update)(copies.current) is Some && attempt.persisted && attempt.locked
}

/// The store after the updates that reach the disk, each made on the result of
/// those before it.
pub open spec fn in_order(store: StoreView, attempts: Seq<Attempt>) -> StoreView
    decreases attempts.len(),
{
    if attempts.len() == 0 {
        store
    } else {
        let before = in_order(store, attempts.drop_last());
        match (attempts.last().update)(before) {
            Some(after) if attempts.last().persisted => after,
            _ => before,
        }
    }
}

/// An update that was acknowledged is in the writer's copy and in the one that
/// readers see.
pub proof fn law_acknowledged_update_is_published(copies: CopiesView, attempt: Attempt)
    requires
        acknowledged(copies, attempt),
    ensures
        after_attempt(copies, attempt).current == (attempt.update)(copies.current)->0,
        after_attempt(copies, attempt).snapshot == (attempt.update)(copies.current)->0,
{
}

/// What was acknowledged is read back: until the next update, a read of the
/// snapshot gives the store that the acknowledged update made.
pub proof fn law_acknowledged_update_is_read_back(
    before: CopiesView,
    attempt: Attempt,
    after: StoreCopies,
)
    requires
        acknowledged(before, attempt),
        after@ == after_attempt(before, attempt),
    ensures
        storage::snapshot_read(Snapshot::Available(&after.snapshot)) == Ok::<StoreView, ErrorView>(
            (attempt.update)(before.current)->0,
        ),
{
}

/// An update that was not acknowledged is not seen by readers. Where it failed
/// or did not reach the disk, the writer does not have it either.
pub proof fn law_refused_update_is_not_seen(copies: CopiesView, attempt: Attempt)
    requires
        !acknowledged(copies, attempt),
    ensures
        after_attempt(copies, attempt).snapshot == copies.snapshot,
        (attempt.update)(copies.current) is None || !attempt.persisted ==> after_attempt(
            copies,
            attempt,
        ) == copies,
{
}

/// As long as the lock is had for what reached the disk, readers see what the
/// writer has.
pub proof fn law_readers_see_the_current_store(copies: CopiesView, attempts: Seq<Attempt>)
    requires
        copies.current == copies.snapshot,
        forall|i: int|
            0 <= i < attempts.len() && (#[trigger] attempts[i]).persisted ==> attempts[i].locked,
    ensures
        after_attempts(copies, attempts).current == after_attempts(copies, attempts).snapshot,
    decreases attempts.len(),
{
    if attempts.len() > 0 {
        let front = attempts.drop_last();
        assert(forall|i: int| 0 <= i < front.len() ==> front[i] == attempts[i]);
        assert(attempts[attempts.len() - 1] == attempts.last());
        law_readers_see_the_current_store(copies, front);
    }
}

/// No update is lost: the writer's store after any number of updates is the one
/// that those which reached the disk make in their order, each on the result of
/// those before it.
pub proof fn law_no_update_is_lost(copies: CopiesView, attempts: Seq<Attempt>)
    ensures
        after_attempts(copies, attempts).current == in_order(copies.current, attempts),
    decreases attempts.len(),
{
    if attempts.len() > 0 {
        law_no_update_is_lost(copies, attempts.drop_last());
    }
}

// ---- The worker ----

/// The mode of a worker after events.
pub open spec fn mode_through(events: Seq<WorkerEvent>) -> WorkerMode
    decreases events.len(),
{
    if events.len() == 0 {
        WorkerMode::Serving
    } else {
        writer::mode_after(mode_through(events.drop_last()), events.last())
    }
}

/// What a worker does about the `i`-th of its events.
pub open spec fn action_at(events: Seq<WorkerEvent>, i: int) -> WorkerAction {
    writer::action_on(mode_through(events.take(i)), events[i])
}

/// The mode follows from what came so far: a worker serves until it is told to
/// stop, then drains, and ends only once its queue is exhausted.
pub proof fn law_mode_of_worker(events: Seq<WorkerEvent>)
    requires
        forall|i: int|
            0 <= i < events.len() - 1 ==> #[trigger] events[i] != WorkerEvent::Exhausted,
    ensures
        mode_through(events) == if events.contains(WorkerEvent::Exhausted) {
            WorkerMode::Stopped
        } else if events.contains(WorkerEvent::Shutdown) {
            WorkerMode::Draining
        } else {
            WorkerMode::Serving
        },
    decreases events.len(),
{
    if events.len() > 0 {
        let front = events.drop_last();
        assert(forall|i: int| 0 <= i < front.len() ==> front[i] == events[i]);
        law_mode_of_worker(front);
        assert(events[events.len() - 1] == events.last());
        assert(!front.contains(WorkerEvent::Exhausted));
        if front.contains(WorkerEvent::Shutdown) {
            let k = choose|i: int| 0 <= i < front.len() && front[i] == WorkerEvent::Shutdown;
            assert(events[k] == WorkerEvent::Shutdown);
        }
        if events.contains(WorkerEvent::Shutdown) && events.last() != WorkerEvent::Shutdown {
            let k = choose|i: int| 0 <= i < events.len() && events[i] == WorkerEvent::Shutdown;
            assert(front[k] == WorkerEvent::Shutdown);
        }
    }
}

/// Every update that the queue admitted is run, before and after the worker is
/// told to stop, and the queue is closed at the first such request only.
pub proof fn law_every_admitted_update_runs(events: Seq<WorkerEvent>, i: int)
    requires
        0 <= i < events.len(),
        forall|j: int| 0 <= j < i ==> #[trigger] events[j] != WorkerEvent::Exhausted,
    ensures
        mode_through(events.take(i)) != WorkerMode::Stopped,
        action_at(events, i) == WorkerAction::Execute <==> events[i] == WorkerEvent::Update,
        action_at(events, i) == WorkerAction::Exit <==> events[i] == WorkerEvent::Exhausted,
        action_at(events, i) == WorkerAction::CloseQueue <==> events[i] == WorkerEvent::Shutdown
            && forall|j: int| 0 <= j < i ==> #[trigger] events[j] != WorkerEvent::Shutdown,
{
    let front = events.take(i);
    assert(forall|j: int| 0 <= j < i ==> front[j] == events[j]);
    law_mode_of_worker(front);
    if forall|j: int| 0 <= j < i ==> #[trigger] events[j] != WorkerEvent::Shutdown {
        assert(!front.contains(WorkerEvent::Shutdown));
    } else {
        let k = choose|j: int| 0 <= j < i && #[trigger] events[j] == WorkerEvent::Shutdown;
        assert(front[k] == WorkerEvent::Shutdown);
    }
}

} // verus!

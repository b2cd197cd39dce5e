//! What each operation makes of a store, as functions on [`StoreView`].

use crate::error::{ErrorView, StoreFailure};
use crate::types::{AccountView, AuthView, StoreView, Timestamp};
use vstd::prelude::*;

verus! {

/// Some account has the id.
pub open spec fn has_id(accounts: Seq<AccountView>, id: Seq<char>) -> bool {
    exists|i: int| 0 <= i < accounts.len() && (#[trigger] accounts[i]).id == id
}

/// Some account has the name.
pub open spec fn has_name(accounts: Seq<AccountView>, name: Seq<char>) -> bool {
    exists|i: int| 0 <= i < accounts.len() && (#[trigger] accounts[i]).name == name
}

/// Some account with another id than `id` has the name.
pub open spec fn name_taken_from(
    accounts: Seq<AccountView>,
    id: Seq<char>,
    name: Seq<char>,
) -> bool {
    exists|i: int|
        0 <= i < accounts.len() && (#[trigger] accounts[i]).id != id && accounts[i].name == name
}

/// `i` is where the first account with the id stands.
pub open spec fn is_first_with_id(accounts: Seq<AccountView>, id: Seq<char>, i: int) -> bool {
    &&& 0 <= i < accounts.len()
    &&& accounts[i].id == id
    &&& forall|j: int| 0 <= j < i ==> (#[trigger] accounts[j]).id != id
}

/// Where the first account with the id stands, if there is one.
pub open spec fn position_of(accounts: Seq<AccountView>, id: Seq<char>) -> int {
    choose|i: int| is_first_with_id(accounts, id, i)
}

/// The first account with the id.
pub open spec fn account_with_id(accounts: Seq<AccountView>, id: Seq<char>) -> Option<AccountView> {
    if has_id(accounts, id) {
        Some(accounts[position_of(accounts, id)])
    } else {
        None
    }
}

/// The active account: the first one that has the active id.
pub open spec fn active_account(store: StoreView) -> Option<AccountView> {
    match store.active {
        Some(id) => account_with_id(store.accounts, id),
        None => None,
    }
}

/// The store with another account in place of the first one that has the id.
pub open spec fn with_account(store: StoreView, id: Seq<char>, account: AccountView) -> StoreView {
    StoreView {
        accounts: store.accounts.update(position_of(store.accounts, id), account),
        ..store
    }
}

/// The accounts that do not have the id, in their order.
pub open spec fn without_id(accounts: Seq<AccountView>, id: Seq<char>) -> Seq<AccountView> {
    accounts.filter(|account: AccountView| account.id != id)
}

/// The id of the first account.
pub open spec fn first_id(accounts: Seq<AccountView>) -> Option<Seq<char>> {
    if accounts.len() == 0 {
        None
    } else {
        Some(accounts[0].id)
    }
}

/// Adding an account puts it last, and makes it active where it is the only
/// one. A name that is in use is refused.
pub open spec fn added(store: StoreView, account: AccountView) -> Result<StoreView, ErrorView> {
    if has_name(store.accounts, account.name) {
        Err(StoreFailure::NameTaken(account.name))
    } else {
        Ok(
            StoreView {
                accounts: store.accounts.push(account),
                active: if store.accounts.len() == 0 {
                    Some(account.id)
                } else {
                    store.active
                },
                masked: store.masked,
            },
        )
    }
}

/// Removing an id takes out every account that has it. Where it was active,
/// the first account that is left becomes active.
pub open spec fn removed(store: StoreView, id: Seq<char>) -> Result<StoreView, ErrorView> {
    if !has_id(store.accounts, id) {
        Err(StoreFailure::AccountNotFound(id))
    } else {
        let kept = without_id(store.accounts, id);
        Ok(
            StoreView {
                accounts: kept,
                active: if store.active == Some(id) {
                    first_id(kept)
                } else {
                    store.active
                },
                masked: store.masked,
            },
        )
    }
}

/// Activating an account makes its id the active one and notes the time of use.
pub open spec fn activated(store: StoreView, id: Seq<char>, now: Timestamp) -> StoreView {
    let account = store.accounts[position_of(store.accounts, id)];
    StoreView {
        active: Some(id),
        ..with_account(store, id, AccountView { last_used_at: Some(now), ..account })
    }
}

/// The new value where there is one, else the old one.
pub open spec fn or_kept<T>(new: Option<T>, kept: Option<T>) -> Option<T> {
    match new {
        Some(value) => Some(value),
        None => kept,
    }
}

/// Changes to the metadata of an account. What is `None` stays as it is.
pub struct MetadataView {
    pub name: Option<Seq<char>>,
    pub email: Option<Seq<char>>,
    pub plan_type: Option<Seq<char>>,
    pub subscription_expires_at: Option<Option<Timestamp>>,
}

/// An account with its metadata changed.
pub open spec fn with_metadata(account: AccountView, change: MetadataView) -> AccountView {
    AccountView {
        name: match change.name {
            Some(name) => name,
            None => account.name,
        },
        email: or_kept(change.email, account.email),
        plan_type: or_kept(change.plan_type, account.plan_type),
        subscription_expires_at: match change.subscription_expires_at {
            Some(expiry) => expiry,
            None => account.subscription_expires_at,
        },
        ..account
    }
}

/// Changing metadata touches the first account with the id. A name that
/// another id uses is refused, and so is an id that no account has.
pub open spec fn metadata_updated(
    store: StoreView,
    id: Seq<char>,
    change: MetadataView,
) -> Result<StoreView, ErrorView> {
    if change.name is Some && name_taken_from(store.accounts, id, change.name->0) {
        Err(StoreFailure::NameTaken(change.name->0))
    } else if !has_id(store.accounts, id) {
        Err(StoreFailure::AccountMissing)
    } else {
        let account = store.accounts[position_of(store.accounts, id)];
        Ok(with_account(store, id, with_metadata(account, change)))
    }
}

/// Tokens of a fresh login, and what the login says of the account. What is
/// `None` stays as it is.
pub struct TokensView {
    pub id_token: Seq<char>,
    pub access_token: Seq<char>,
    pub refresh_token: Seq<char>,
    pub account_id: Option<Seq<char>>,
    pub email: Option<Seq<char>>,
    pub plan_type: Option<Seq<char>>,
    pub subscription_expires_at: Option<Timestamp>,
}

/// An account that logs in with tokens, with its tokens replaced.
pub open spec fn with_tokens(account: AccountView, tokens: TokensView) -> AccountView {
    AccountView {
        auth_data: AuthView::ChatGPT {
            id_token: tokens.id_token,
            access_token: tokens.access_token,
            refresh_token: tokens.refresh_token,
            account_id: or_kept(tokens.account_id, account.auth_data->account_id),
        },
        email: or_kept(tokens.email, account.email),
        plan_type: or_kept(tokens.plan_type, account.plan_type),
        subscription_expires_at: or_kept(
            tokens.subscription_expires_at,
            account.subscription_expires_at,
        ),
        ..account
    }
}

/// New tokens go to the first account with the id, unless no account has it or
/// that account uses an API key.
pub open spec fn tokens_updated(
    store: StoreView,
    id: Seq<char>,
    tokens: TokensView,
) -> Result<StoreView, ErrorView> {
    if !has_id(store.accounts, id) {
        Err(StoreFailure::AccountMissing)
    } else {
        let account = store.accounts[position_of(store.accounts, id)];
        match account.auth_data {
            AuthView::ApiKey { .. } => Err(StoreFailure::ApiKeyAccount),
            AuthView::ChatGPT { .. } => Ok(with_account(store, id, with_tokens(account, tokens))),
        }
    }
}

/// The store with other masked ids.
pub open spec fn masked_set(store: StoreView, ids: Seq<Seq<char>>) -> StoreView {
    StoreView { masked: ids, ..store }
}

/// The first account with an id has only one position.
pub proof fn lemma_position_is(accounts: Seq<AccountView>, id: Seq<char>, i: int)
    requires
        is_first_with_id(accounts, id, i),
    ensures
        has_id(accounts, id),
        position_of(accounts, id) == i,
{
    let p = position_of(accounts, id);
    assert(is_first_with_id(accounts, id, p));
    if p < i {
        assert(accounts[p].id != id);
    }
    if i < p {
        assert(accounts[i].id != id);
    }
}

/// Where some account has an id, one of them is the first.
pub proof fn lemma_position(accounts: Seq<AccountView>, id: Seq<char>)
    requires
        has_id(accounts, id),
    ensures
        is_first_with_id(accounts, id, position_of(accounts, id)),
    decreases accounts.len(),
{
    let front = accounts.drop_last();
    if has_id(front, id) {
        lemma_position(front, id);
        let p = position_of(front, id);
        assert(is_first_with_id(accounts, id, p)) by {
            assert(forall|j: int| 0 <= j < front.len() ==> front[j] == accounts[j]);
        }
    } else {
        let k = choose|i: int| 0 <= i < accounts.len() && (#[trigger] accounts[i]).id == id;
        assert(forall|j: int| 0 <= j < front.len() ==> front[j].id != id);
        if k < front.len() {
            assert(front[k].id == id);
        }
        assert(is_first_with_id(accounts, id, k)) by {
            assert(forall|j: int| 0 <= j < k ==> accounts[j] == front[j]);
        }
    }
}

/// An account that replaces one of its id is found under that id.
pub proof fn lemma_with_account(store: StoreView, id: Seq<char>, account: AccountView)
    requires
        has_id(store.accounts, id),
        account.id == id,
    ensures
        account_with_id(with_account(store, id, account).accounts, id) == Some(account),
        position_of(with_account(store, id, account).accounts, id) == position_of(
            store.accounts,
            id,
        ),
{
    lemma_position(store.accounts, id);
    let p = position_of(store.accounts, id);
    let accounts = with_account(store, id, account).accounts;
    assert(is_first_with_id(accounts, id, p));
    lemma_position_is(accounts, id, p);
}

/// One more account is kept where it does not have the id.
pub proof fn lemma_without_id_step(accounts: Seq<AccountView>, id: Seq<char>, i: int)
    requires
        0 <= i < accounts.len(),
    ensures
        without_id(accounts.take(i + 1), id) == if accounts[i].id == id {
            without_id(accounts.take(i), id)
        } else {
            without_id(accounts.take(i), id).push(accounts[i])
        },
{
    reveal(Seq::filter);
    assert(accounts.take(i + 1).drop_last() =~= accounts.take(i));
}

/// Leaving an id out drops the accounts that have it and no others.
pub proof fn lemma_without_id(accounts: Seq<AccountView>, id: Seq<char>)
    ensures
        !has_id(without_id(accounts, id), id),
        without_id(accounts, id).len() <= accounts.len(),
        has_id(accounts, id) ==> without_id(accounts, id).len() < accounts.len(),
        !has_id(accounts, id) ==> without_id(accounts, id) == accounts,
        forall|account: AccountView|
            #[trigger] without_id(accounts, id).contains(account) <==> accounts.contains(account)
                && account.id != id,
    decreases accounts.len(),
{
    reveal(Seq::filter);
    let kept = without_id(accounts, id);
    if accounts.len() > 0 {
        let front = accounts.drop_last();
        let last = accounts.last();
        lemma_without_id(front, id);
        let front_kept = without_id(front, id);
        assert(kept == if last.id == id {
            front_kept
        } else {
            front_kept.push(last)
        });
        if has_id(front, id) {
            let k = choose|i: int| 0 <= i < front.len() && (#[trigger] front[i]).id == id;
            assert(accounts[k].id == id);
        }
        if has_id(accounts, id) && last.id != id {
            let k = choose|i: int| 0 <= i < accounts.len() && (#[trigger] accounts[i]).id == id;
            assert(front[k].id == id);
        }
        if !has_id(accounts, id) {
            assert(accounts[accounts.len() - 1].id != id);
            assert(accounts =~= front.push(last));
        }
        if has_id(kept, id) {
            let k = choose|i: int| 0 <= i < kept.len() && (#[trigger] kept[i]).id == id;
            if k < front_kept.len() {
                assert(front_kept[k].id == id);
            }
        }
        assert forall|account: AccountView| #[trigger]
            kept.contains(account) <==> accounts.contains(account) && account.id != id by {
            assert(front_kept.contains(account) <==> front.contains(account) && account.id != id);
            if accounts.contains(account) {
                let k = choose|i: int| 0 <= i < accounts.len() && accounts[i] == account;
                if k < front.len() {
                    assert(front[k] == account);
                    if account.id != id {
                        let m = choose|m: int| 0 <= m < front_kept.len() && front_kept[m] == account;
                        assert(kept[m] == account);
                    }
                } else if account.id != id {
                    assert(kept[kept.len() - 1] == account);
                }
            }
            if kept.contains(account) {
                let k = choose|i: int| 0 <= i < kept.len() && kept[i] == account;
                if k < front_kept.len() {
                    assert(front_kept[k] == account);
                    let m = choose|m: int| 0 <= m < front.len() && front[m] == account;
                    assert(accounts[m] == account);
                } else {
                    assert(accounts[accounts.len() - 1] == account);
                }
            }
        }
    } else {
        assert(kept =~= accounts);
    }
}

} // verus!

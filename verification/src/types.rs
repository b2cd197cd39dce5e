//! The data that the store holds, and its mathematical view.

use vstd::prelude::*;

verus! {

/// An instant in UTC: whole seconds since the Unix epoch, and the nanoseconds
/// after them.
#[derive(Clone, Copy, Debug, PartialEq, Eq, Structural)]
pub struct Timestamp {
    pub seconds: i64,
    pub nanos: u32,
}

/// The credentials of an account.
#[derive(Debug)]
pub enum AuthData {
    /// OAuth tokens of a ChatGPT login.
    ChatGPT {
        id_token: String,
        access_token: String,
        refresh_token: String,
        account_id: Option<String>,
    },
    /// An API key.
    ApiKey { key: String },
}

/// One account.
#[derive(Debug)]
pub struct StoredAccount {
    pub id: String,
    pub name: String,
    pub email: Option<String>,
    pub plan_type: Option<String>,
    pub subscription_expires_at: Option<Timestamp>,
    pub auth_data: AuthData,
    pub last_used_at: Option<Timestamp>,
}

/// All accounts in the order in which they were added, the id of the active
/// one, and the ids of those whose details are masked.
#[derive(Debug)]
pub struct AccountsStore {
    pub accounts: Vec<StoredAccount>,
    pub active_account_id: Option<String>,
    pub masked_account_ids: Vec<String>,
}

/// The view of [`AuthData`].
#[verifier::ext_equal]
pub enum AuthView {
    ChatGPT {
        id_token: Seq<char>,
        access_token: Seq<char>,
        refresh_token: Seq<char>,
        account_id: Option<Seq<char>>,
    },
    ApiKey { key: Seq<char> },
}

/// The view of [`StoredAccount`].
#[verifier::ext_equal]
pub struct AccountView {
    pub id: Seq<char>,
    pub name: Seq<char>,
    pub email: Option<Seq<char>>,
    pub plan_type: Option<Seq<char>>,
    pub subscription_expires_at: Option<Timestamp>,
    pub auth_data: AuthView,
    pub last_used_at: Option<Timestamp>,
}

/// The view of [`AccountsStore`].
#[verifier::ext_equal]
pub struct StoreView {
    pub accounts: Seq<AccountView>,
    pub active: Option<Seq<char>>,
    pub masked: Seq<Seq<char>>,
}

/// The characters of an optional string.
pub open spec fn text(value: Option<String>) -> Option<Seq<char>> {
    match value {
        Some(s) => Some(s@),
        None => None,
    }
}

/// The characters of each string.
pub open spec fn texts(values: Seq<String>) -> Seq<Seq<char>> {
    values.map_values(|s: String| s@)
}

/// The view of each account.
pub open spec fn account_views(accounts: Seq<StoredAccount>) -> Seq<AccountView> {
    accounts.map_values(|account: StoredAccount| account@)
}

impl View for AuthData {
    type V = AuthView;

    open spec fn view(&self) -> AuthView {
        match *self {
            AuthData::ChatGPT { id_token, access_token, refresh_token, account_id } =>
                AuthView::ChatGPT {
                    id_token: id_token@,
                    access_token: access_token@,
                    refresh_token: refresh_token@,
                    account_id: text(account_id),
                },
            AuthData::ApiKey { key } => AuthView::ApiKey { key: key@ },
        }
    }
}

impl View for StoredAccount {
    type V = AccountView;

    open spec fn view(&self) -> AccountView {
        AccountView {
            id: self.id@,
            name: self.name@,
            email: text(self.email),
            plan_type: text(self.plan_type),
            subscription_expires_at: self.subscription_expires_at,
            auth_data: self.auth_data@,
            last_used_at: self.last_used_at,
        }
    }
}

impl View for AccountsStore {
    type V = StoreView;

    open spec fn view(&self) -> StoreView {
        StoreView {
            accounts: account_views(self.accounts@),
            active: text(self.active_account_id),
            masked: texts(self.masked_account_ids@),
        }
    }
}

impl Clone for AuthData {
    fn clone(&self) -> (copy: Self)
        ensures
            copy@ == self@,
    {
        match self {
            AuthData::ChatGPT { id_token, access_token, refresh_token, account_id } =>
                AuthData::ChatGPT {
                    id_token: id_token.clone(),
                    access_token: access_token.clone(),
                    refresh_token: refresh_token.clone(),
                    account_id: account_id.clone(),
                },
            AuthData::ApiKey { key } => AuthData::ApiKey { key: key.clone() },
        }
    }
}

impl Clone for StoredAccount {
    fn clone(&self) -> (copy: Self)
        ensures
            copy@ == self@,
    {
        StoredAccount {
            id: self.id.clone(),
            name: self.name.clone(),
            email: self.email.clone(),
            plan_type: self.plan_type.clone(),
            subscription_expires_at: self.subscription_expires_at,
            auth_data: self.auth_data.clone(),
            last_used_at: self.last_used_at,
        }
    }
}

impl Clone for AccountsStore {
    fn clone(&self) -> (copy: Self)
        ensures
            copy@ == self@,
    {
        let copy = AccountsStore {
            accounts: self.accounts.clone(),
            active_account_id: self.active_account_id.clone(),
            masked_account_ids: self.masked_account_ids.clone(),
        };
        assert(copy@.accounts =~= self@.accounts);
        assert(copy@.masked =~= self@.masked);
        copy
    }
}

/// The view of a store that nothing was added to.
pub open spec fn empty_store() -> StoreView {
    StoreView { accounts: Seq::empty(), active: None, masked: Seq::empty() }
}

impl Default for AccountsStore {
    fn default() -> (store: Self)
        ensures
            store@ == empty_store(),
    {
        let store = AccountsStore {
            accounts: Vec::new(),
            active_account_id: None,
            masked_account_ids: Vec::new(),
        };
        assert(store@.accounts =~= Seq::empty());
        assert(store@.masked =~= Seq::empty());
        store
    }
}

} // verus!

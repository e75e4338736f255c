//! The credential store: one token under one service and account.
//!
//! The store asks its vault once per operation and answers as the commands
//! do. Its vault is the one in memory, so that what depends on the store can
//! be exercised without touching the operating system's vault.

use vstd::prelude::*;
use crate::commands::{clear_auth_token, get_auth_token, set_auth_token};
use crate::commands::{clear_answer, get_answer, set_answer};
use crate::commands::{plain_answer_view, token_answer_view};
use crate::commands::{TOKEN_ACCOUNT, TOKEN_SERVICE};
use crate::memory::MemoryVault;
use crate::memory::{delete_report, read_report, write_report};

verus! {

/// A credential store as contracts speak of it: the key it was made for, and
/// the token that its vault holds under that key, if any.
pub struct StoreState {
    pub service: Seq<char>,
    pub account: Seq<char>,
    pub token: Option<Seq<char>>,
}

impl StoreState {
    /// The state after `token` was stored: it takes the place of any earlier
    /// token, and the key stays.
    pub open spec fn set(self, token: Seq<char>) -> StoreState {
        StoreState { token: Some(token), ..self }
    }

    /// The state after the token was cleared: none is held, and the key
    /// stays.
    pub open spec fn clear(self) -> StoreState {
        StoreState { token: None, ..self }
    }

    /// What storing a token answers in this state: the answer to what the
    /// vault reports of the write.
    pub open spec fn answer_to_set(self) -> Result<(), Seq<char>> {
        set_answer(write_report())
    }

    /// What a read answers in this state: the answer to what the vault
    /// reports of the read.
    pub open spec fn answer_to_get(self) -> Result<Option<Seq<char>>, Seq<char>> {
        get_answer(read_report(self.token))
    }

    /// What clearing the token answers in this state: the answer to what the
    /// vault reports of the deletion.
    pub open spec fn answer_to_clear(self) -> Result<(), Seq<char>> {
        clear_answer(delete_report(self.token))
    }
}

/// A store for one token, kept under a service and an account.
pub struct CredentialStore {
    service: String,
    account: String,
    vault: MemoryVault,
}

impl View for CredentialStore {
    type V = StoreState;

    closed spec fn view(&self) -> StoreState {
        StoreState { service: self.service@, account: self.account@, token: self.vault@ }
    }
}

impl CredentialStore {
    /// A store under the given service and account, holding no token yet.
    pub fn new(service: &str, account: &str) -> (store: CredentialStore)
        ensures
            store@ == (StoreState { service: service@, account: account@, token: None }),
    {
        CredentialStore {
            service: service.to_owned(),
            account: account.to_owned(),
            vault: MemoryVault::new(),
        }
    }

    /// A store under `TOKEN_SERVICE` and `TOKEN_ACCOUNT`, holding no token
    /// yet.
    pub fn for_auth_token() -> (store: CredentialStore)
        ensures
            store@ == (StoreState {
                service: TOKEN_SERVICE@,
                account: TOKEN_ACCOUNT@,
                token: None,
            }),
    {
        CredentialStore::new(TOKEN_SERVICE, TOKEN_ACCOUNT)
    }

    /// The service that the token is kept under.
    pub fn service(&self) -> (service: &str)
        ensures
            service@ == self@.service,
    {
        self.service.as_str()
    }

    /// The account that the token is kept under.
    pub fn account(&self) -> (account: &str)
        ensures
            account@ == self@.account,
    {
        self.account.as_str()
    }

    /// Stores `token`, which may be empty, in place of any earlier token.
    /// It succeeds.
    pub fn set(&mut self, token: &str) -> (answer: Result<(), String>)
        ensures
            answer is Ok,
            plain_answer_view(answer) == old(self)@.answer_to_set(),
            final(self)@ == old(self)@.set(token@),
    {
        let report = self.vault.set_password(token);
        set_auth_token(report)
    }

    /// Reads the token and leaves the store as it is. It succeeds: where no
    /// token is held the answer is `Ok(None)`.
    pub fn get(&self) -> (answer: Result<Option<String>, String>)
        ensures
            token_answer_view(answer) == Ok::<Option<Seq<char>>, Seq<char>>(self@.token),
            token_answer_view(answer) == self@.answer_to_get(),
    {
        let report = self.vault.get_password();
        get_auth_token(report)
    }

    /// Clears the token. It succeeds whether or not a token was held.
    pub fn clear(&mut self) -> (answer: Result<(), String>)
        ensures
            answer is Ok,
            plain_answer_view(answer) == old(self)@.answer_to_clear(),
            final(self)@ == old(self)@.clear(),
    {
        let report = self.vault.delete_password();
        clear_auth_token(report)
    }
}

} // verus!

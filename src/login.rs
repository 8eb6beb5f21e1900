//! The single-flight login coordinator: at most one OAuth login or
//! reconnect is pending. Starting supersedes (and cancels) the previous
//! flow; completing consumes the pending flow whatever happens next. The
//! caller owns the coordinator behind a lock, and awaits the result channel
//! only after taking the flow out, never while holding the lock.

use vstd::prelude::*;

use std::sync::atomic::{AtomicBool, Ordering};
use std::sync::Arc;

use crate::errors::{AccountError, LoginError};
use crate::secret_store::add_account;
use crate::store::{first_with_id, find_account_index, name_taken, replace_account_chatgpt_credentials};
use crate::switcher::{activate_at, session_document};
use crate::credentials::{account_has_usable_credentials, auth_data_has_real_secrets, has_real_secrets};
use crate::types::{AccountsStore, AuthData, AuthDotJson, AuthMode, StoredAccount};

verus! {

/// What a pending flow will do with its result.
#[derive(Clone, Debug)]
pub enum PendingOAuthMode {
    CreateAccount,
    ReconnectAccount { account_id: String },
}

/// A pending flow: the channel its single result arrives on, and the flag
/// that tells the external listener to stop.
#[derive(Debug)]
pub struct PendingOAuth<R> {
    pub rx: R,
    pub cancelled: Arc<AtomicBool>,
    pub mode: PendingOAuthMode,
}

#[derive(Debug)]
pub struct LoginCoordinator<R> {
    pending: Option<PendingOAuth<R>>,
}

impl<R> LoginCoordinator<R> {
    /// The pending flow, if any.
    pub closed spec fn pending_flow(&self) -> Option<PendingOAuth<R>> {
        self.pending
    }

    pub fn new() -> (r: Self)
        ensures
            r.pending_flow() is None,
    {
        LoginCoordinator { pending: None }
    }

    pub fn has_pending(&self) -> (r: bool)
        ensures
            r == self.pending_flow() is Some,
    {
        self.pending.is_some()
    }

    /// Installs a new pending flow. A flow that was pending is cancelled
    /// (its flag raised) and dropped; returns whether there was one.
    pub fn start_login(&mut self, rx: R, cancelled: Arc<AtomicBool>, mode: PendingOAuthMode) -> (superseded: bool)
        ensures
            superseded == old(self).pending_flow() is Some,
            final(self).pending_flow() == Some(PendingOAuth { rx, cancelled, mode }),
    {
        let superseded = self.cancel_login();
        self.pending = Some(PendingOAuth { rx, cancelled, mode });
        superseded
    }

    /// Takes the pending flow out for completion. It is consumed whatever
    /// the outcome: with none pending the result is `NoPendingFlow`; with a
    /// flow of the other kind, `ModeMismatch`.
    pub fn take_for_completion(&mut self, expect_reconnect: bool) -> (r: Result<PendingOAuth<R>, LoginError>)
        ensures
            final(self).pending_flow() is None,
            old(self).pending_flow() is None ==> r == Err::<PendingOAuth<R>, LoginError>(LoginError::NoPendingFlow),
            old(self).pending_flow() matches Some(p) ==> if (p.mode is ReconnectAccount) == expect_reconnect {
                r == Ok::<PendingOAuth<R>, LoginError>(p)
            } else {
                r == Err::<PendingOAuth<R>, LoginError>(LoginError::ModeMismatch { expected_reconnect: expect_reconnect })
            },
    {
        let taken = self.pending.take();
        match taken {
            None => Err(LoginError::NoPendingFlow),
            Some(p) => {
                let is_reconnect = match &p.mode {
                    PendingOAuthMode::ReconnectAccount { .. } => true,
                    PendingOAuthMode::CreateAccount => false,
                };
                if is_reconnect == expect_reconnect {
                    Ok(p)
                } else {
                    Err(LoginError::ModeMismatch { expected_reconnect: expect_reconnect })
                }
            },
        }
    }

    /// Cancels the pending flow, if any: raises its flag and drops it.
    /// Returns whether there was one.
    pub fn cancel_login(&mut self) -> (r: bool)
        ensures
            r == old(self).pending_flow() is Some,
            final(self).pending_flow() is None,
    {
        match self.pending.take() {
            Some(p) => {
                p.cancelled.store(true, Ordering::Relaxed);
                true
            },
            None => false,
        }
    }
}

/// The name of the account a reconnect is for; only OAuth accounts can
/// reconnect.
pub fn reconnect_account_name(store: &AccountsStore, account_id: &str) -> (r: Result<String, AccountError>)
    ensures
        !store.ids().contains(account_id@) ==> (r matches Err(e) && e is AccountNotFound),
        store.ids().contains(account_id@) ==> exists|i: int|
            {
                &&& first_with_id(store.accounts@, account_id@, i)
                &&& (store.accounts@[i].auth_mode == AuthMode::ChatGPT ==> r == Ok::<String, AccountError>(
                    store.accounts@[i].name,
                ))
                &&& (store.accounts@[i].auth_mode != AuthMode::ChatGPT ==> (r matches Err(e)
                    && e is NotOAuthAccount))
            },
{
    match find_account_index(store.accounts.as_slice(), account_id) {
        Some(i) => {
            if store.accounts[i].auth_mode != AuthMode::ChatGPT {
                return Err(AccountError::NotOAuthAccount { account_id: account_id.to_owned() });
            }
            Ok(store.accounts[i].name.clone())
        },
        None => Err(AccountError::AccountNotFound { account_id: account_id.to_owned() }),
    }
}

/// Finishes a new-account login with the account the listener delivered:
/// refuses a taken name or an unusable credential, then adds it (its
/// serialized secret goes to the vault) and switches to it. Returns the
/// stored account and the session file to write. On failure the index is
/// unchanged.
pub fn complete_login(store: &mut AccountsStore, account: StoredAccount, secret: &str, now: i64) -> (r: Result<
    (StoredAccount, AuthDotJson),
    AccountError,
>)
    ensures
        (r matches Err(e) && e is DuplicateName) <==> old(store).names().contains(account.name@),
        !old(store).names().contains(account.name@) && !has_real_secrets(account.auth_data) ==> (r matches Err(
            e,
        ) && e is UnusableCredentials),
        r matches Err(e) ==> e is DuplicateName || e is UnusableCredentials || e is Storage
            || e is VerificationFailed,
        r is Err ==> *final(store) == *old(store),
        r matches Ok((added, doc)) ==> {
            &&& added == (StoredAccount { last_used_at: Some(now), ..account })
            &&& has_real_secrets(account.auth_data)
            &&& doc == session_document(account, now)
            &&& final(store).accounts@ == old(store).accounts@.push(added)
            &&& final(store).active_account_id == Some(account.id)
        },
{
    if name_taken(store.accounts.as_slice(), account.name.as_str()) {
        return Err(AccountError::DuplicateName { name: account.name });
    }
    if !account_has_usable_credentials(&account) {
        return Err(AccountError::UnusableCredentials { name: account.name });
    }
    let added = add_account(store, account, secret)?;
    let last = store.accounts.len() - 1;
    let doc = activate_at(store, last, now);
    let stored = store.accounts[last].copy_account();
    Ok((stored, doc))
}

pub open spec fn opt_id(s: Option<String>) -> Option<Seq<char>> {
    match s {
        Some(v) => Some(v@),
        None => None,
    }
}

/// Finishes a reconnect of `account_id` with the account the listener
/// delivered: its OAuth tokens replace the stored credential of the first
/// account with that id (id and name are kept, email and plan replaced when
/// given) and the account is switched to. An API-key result is refused, as
/// is an unusable token bundle. On failure the index is unchanged.
pub fn complete_reconnect(store: &mut AccountsStore, account_id: &str, delivered: StoredAccount, now: i64) -> (r: Result<
    (StoredAccount, AuthDotJson),
    AccountError,
>)
    ensures
        r is Err ==> *final(store) == *old(store),
        delivered.auth_data is ApiKey ==> (r matches Err(e) && e is UnexpectedOAuthResult),
        delivered.auth_data is ChatGPT && !old(store).ids().contains(account_id@) ==> (r matches Err(e)
            && e is AccountNotFound),
        delivered.auth_data is ChatGPT && old(store).ids().contains(account_id@) ==> exists|i: int|
            {
                &&& first_with_id(old(store).accounts@, account_id@, i)
                &&& (r is Ok <==> has_real_secrets(delivered.auth_data))
                &&& (r matches Err(e) ==> e is UnusableCredentials)
                &&& (r matches Ok((updated, doc)) ==> {
                    &&& updated == StoredAccount {
                        auth_mode: AuthMode::ChatGPT,
                        auth_data: delivered.auth_data,
                        email: if delivered.email is Some { delivered.email } else { old(store).accounts@[i].email },
                        plan_type: if delivered.plan_type is Some {
                            delivered.plan_type
                        } else {
                            old(store).accounts@[i].plan_type
                        },
                        last_used_at: Some(now),
                        ..old(store).accounts@[i]
                    }
                    &&& final(store).accounts@ == old(store).accounts@.update(i, updated)
                    &&& final(store).active_account_id == Some(old(store).accounts@[i].id)
                    &&& doc == session_document(updated, now)
                })
            },
{
    if let AuthData::ApiKey { .. } = &delivered.auth_data {
        return Err(AccountError::UnexpectedOAuthResult);
    }
    let i = match find_account_index(store.accounts.as_slice(), account_id) {
        Some(i) => i,
        None => {
            return Err(AccountError::AccountNotFound { account_id: account_id.to_owned() });
        },
    };
    if !auth_data_has_real_secrets(&delivered.auth_data) {
        return Err(AccountError::UnusableCredentials { name: store.accounts[i].name.clone() });
    }
    let ghost before = store.accounts@;
    let (id_token, access_token, refresh_token, provider_account_id) = match delivered.auth_data {
        AuthData::ChatGPT { id_token, access_token, refresh_token, account_id } => (
            id_token,
            access_token,
            refresh_token,
            account_id,
        ),
        AuthData::ApiKey { .. } => {
            return Err(AccountError::UnexpectedOAuthResult);
        },
    };
    let replaced = replace_account_chatgpt_credentials(
        store,
        account_id,
        id_token,
        access_token,
        refresh_token,
        provider_account_id,
        delivered.email,
        delivered.plan_type,
    );
    proof {
        let k = choose|k: int|
            first_with_id(before, account_id@, k) && store.accounts@ == before.update(k, replaced->Ok_0);
        assert(k == i);
    }
    let doc = activate_at(store, i, now);
    let updated = store.accounts[i].copy_account();
    Ok((updated, doc))
}

} // verus!

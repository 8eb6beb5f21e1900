//! Per-account secrets in the OS vault, keyed `account:<id>` under a fixed
//! service name. The value stored is a serialized secret envelope; turning
//! it into an `AuthData` is the caller's part.

use vstd::prelude::*;

use crate::errors::AccountError;
use crate::store::{insert_account, name_taken};
use crate::types::{AccountsStore, StoredAccount};

verus! {

#[verifier::external_type_specification]
#[verifier::external_body]
pub struct ExEntry(keyring::Entry);

/// The vault namespace of this application.
pub const SERVICE_NAME: &'static str = "codex-switcher";

/// Prefix of every vault user name.
pub const ACCOUNT_PREFIX: &'static str = "account:";

/// What a vault operation came back with.
#[derive(Clone, Debug)]
pub enum VaultOutcome<T> {
    Done(T),
    /// The vault holds no entry under that key.
    NoEntry,
    /// Any other failure, described.
    Failed(String),
}

/// Relies on keyring::Entry::new: builds the handle of the platform's
/// default credential store for a service and user.
#[verifier::external_body]
fn open_entry(service: &str, user: &str) -> (r: Result<keyring::Entry, String>) {
    match keyring::Entry::new(service, user) {
        Ok(entry) => Ok(entry),
        Err(err) => Err(err.to_string()),
    }
}

/// Relies on keyring::Entry::set_password: stores the secret under the entry.
#[verifier::external_body]
fn write_entry(entry: &keyring::Entry, secret: &str) -> (r: Result<(), String>) {
    match entry.set_password(secret) {
        Ok(()) => Ok(()),
        Err(err) => Err(err.to_string()),
    }
}

/// Relies on keyring::Entry::get_password: the stored secret, or NoEntry
/// when there is none.
#[verifier::external_body]
fn read_entry(entry: &keyring::Entry) -> (r: VaultOutcome<String>) {
    match entry.get_password() {
        Ok(secret) => VaultOutcome::Done(secret),
        Err(keyring::Error::NoEntry) => VaultOutcome::NoEntry,
        Err(err) => VaultOutcome::Failed(err.to_string()),
    }
}

/// Relies on keyring::Entry::delete_credential: removes the entry, or
/// NoEntry when there is none.
#[verifier::external_body]
fn erase_entry(entry: &keyring::Entry) -> (r: VaultOutcome<()>) {
    match entry.delete_credential() {
        Ok(()) => VaultOutcome::Done(()),
        Err(keyring::Error::NoEntry) => VaultOutcome::NoEntry,
        Err(err) => VaultOutcome::Failed(err.to_string()),
    }
}

/// The vault user name of an account.
pub fn entry_username(account_id: &str) -> (r: String)
    ensures
        r@ == ACCOUNT_PREFIX@ + account_id@,
{
    let mut s = ACCOUNT_PREFIX.to_owned();
    s.append(account_id);
    s
}

fn storage_error(context: &str, cause: String) -> (r: AccountError)
    ensures
        r == (AccountError::Storage { context: r->context, cause }),
        r->context@ == context@,
{
    AccountError::Storage { context: context.to_owned(), cause }
}

fn entry_for_account(account_id: &str) -> (r: Result<keyring::Entry, AccountError>)
    ensures
        r matches Err(e) ==> e is Storage,
{
    let user = entry_username(account_id);
    match open_entry(SERVICE_NAME, user.as_str()) {
        Ok(entry) => Ok(entry),
        Err(cause) => Err(storage_error("Failed to initialize keychain entry", cause)),
    }
}

/// Stores the serialized secret of an account in the vault.
pub fn save_account_secret(account_id: &str, secret: &str) -> (r: Result<(), AccountError>)
    ensures
        r matches Err(e) ==> e is Storage,
{
    let entry = entry_for_account(account_id)?;
    match write_entry(&entry, secret) {
        Ok(()) => Ok(()),
        Err(cause) => Err(storage_error("Failed to store credentials for account", cause)),
    }
}

/// What a vault read means: a secret, no secret (not an error), or a failure.
pub fn interpret_read(outcome: VaultOutcome<String>) -> (r: Result<Option<String>, AccountError>)
    ensures
        outcome matches VaultOutcome::Done(s) ==> r == Ok::<Option<String>, AccountError>(Some(s)),
        outcome is NoEntry ==> r == Ok::<Option<String>, AccountError>(None),
        outcome matches VaultOutcome::Failed(c) ==> r matches Err(AccountError::Storage { cause, .. })
            && cause == c,
{
    match outcome {
        VaultOutcome::Done(secret) => Ok(Some(secret)),
        VaultOutcome::NoEntry => Ok(None),
        VaultOutcome::Failed(cause) => Err(storage_error("Failed to read credentials for account", cause)),
    }
}

/// Reads the serialized secret of an account; `None` when the vault has no
/// entry for it.
pub fn load_account_secret(account_id: &str) -> (r: Result<Option<String>, AccountError>)
    ensures
        r matches Err(e) ==> e is Storage,
{
    let entry = entry_for_account(account_id)?;
    interpret_read(read_entry(&entry))
}

/// What a vault delete means: deleting an absent entry succeeds.
pub fn interpret_delete(outcome: VaultOutcome<()>) -> (r: Result<(), AccountError>)
    ensures
        r is Ok <==> !(outcome is Failed),
        outcome matches VaultOutcome::Failed(c) ==> r matches Err(AccountError::Storage { cause, .. })
            && cause == c,
{
    match outcome {
        VaultOutcome::Done(()) | VaultOutcome::NoEntry => Ok(()),
        VaultOutcome::Failed(cause) => Err(
            storage_error("Failed to delete credentials for account", cause),
        ),
    }
}

/// Deletes the secret of an account; idempotent.
pub fn delete_account_secret(account_id: &str) -> (r: Result<(), AccountError>)
    ensures
        r matches Err(e) ==> e is Storage,
{
    let entry = entry_for_account(account_id)?;
    interpret_delete(erase_entry(&entry))
}

/// What a read-back after a write means for the account named `name`.
pub open spec fn verification_result<T>(
    loaded: Result<Option<T>, AccountError>,
    name: Seq<char>,
    r: Result<(), AccountError>,
) -> bool {
    match loaded {
        Ok(Some(_)) => r is Ok,
        Ok(None) => (r matches Err(AccountError::VerificationFailed { account_name, cause })
            && account_name@ == name && cause is None),
        Err(e) => (r matches Err(AccountError::VerificationFailed { account_name, cause })
            && account_name@ == name && (cause matches Some(c) && c@ == e.message_text())),
    }
}

/// Checks that a secret just written can be read back through `loader`.
pub fn verify_keychain_secret_with_loader<T, F: FnOnce(&str) -> Result<Option<T>, AccountError>>(
    account_id: &str,
    account_name: &str,
    loader: F,
) -> (r: Result<(), AccountError>)
    requires
        loader.requires((account_id,)),
    ensures
        exists|loaded: Result<Option<T>, AccountError>|
            loader.ensures((account_id,), loaded) && verification_result(loaded, account_name@, r),
{
    let loaded = loader(account_id);
    let r = match &loaded {
        Ok(Some(_)) => Ok(()),
        Ok(None) => Err(
            AccountError::VerificationFailed { account_name: account_name.to_owned(), cause: None },
        ),
        Err(e) => Err(
            AccountError::VerificationFailed {
                account_name: account_name.to_owned(),
                cause: Some(e.message()),
            },
        ),
    };
    assert(loader.ensures((account_id,), loaded) && verification_result(loaded, account_name@, r));
    r
}

/// Checks that the vault returns a secret for the account.
pub fn verify_keychain_secret(account_id: &str, account_name: &str) -> (r: Result<(), AccountError>)
    ensures
        r matches Err(e) ==> (e matches AccountError::VerificationFailed { account_name: n, .. } && n@
            == account_name@),
{
    verify_keychain_secret_with_loader(account_id, account_name, load_account_secret)
}

/// Adds an account: refuses a taken name, writes the serialized secret to
/// the vault, reads it back, and only then appends the account to the index
/// (the first account becomes active). A failed read-back deletes the
/// secret again. On any failure the index is unchanged.
pub fn add_account(store: &mut AccountsStore, account: StoredAccount, secret: &str) -> (r: Result<
    StoredAccount,
    AccountError,
>)
    ensures
        (r matches Err(e) && e is DuplicateName) <==> old(store).names().contains(account.name@),
        r matches Err(e) ==> e is DuplicateName || e is Storage || e is VerificationFailed,
        r is Err ==> *final(store) == *old(store),
        r matches Ok(added) ==> {
            &&& added == account
            &&& final(store).accounts@ == old(store).accounts@.push(account)
            &&& final(store).active_account_id == if old(store).accounts@.len() == 0 {
                Some(account.id)
            } else {
                old(store).active_account_id
            }
        },
{
    if name_taken(store.accounts.as_slice(), account.name.as_str()) {
        return Err(AccountError::DuplicateName { name: account.name });
    }
    save_account_secret(account.id.as_str(), secret)?;
    if let Err(err) = verify_keychain_secret(account.id.as_str(), account.name.as_str()) {
        let _ = delete_account_secret(account.id.as_str());
        return Err(err);
    }
    let added = account.copy_account();
    match insert_account(store, account) {
        Ok(()) => Ok(added),
        Err(err) => Err(err),
    }
}

} // verus!

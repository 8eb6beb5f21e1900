//! Secret placeholders, redaction and the usability rule for credentials.

use vstd::prelude::*;

use crate::text::{same_text, is_non_blank, trimmed};
use crate::types::{AuthData, StoredAccount};

verus! {

/// The marker written into the index in place of every secret field.
pub const KEYCHAIN_PLACEHOLDER: &'static str = "__stored_in_keychain__";

/// A secret field counts as absent when empty or equal to the marker.
pub open spec fn placeholder(s: Seq<char>) -> bool {
    s.len() == 0 || s == KEYCHAIN_PLACEHOLDER@
}

/// Every field that the credential kind requires holds a real value.
pub open spec fn has_real_secrets(a: AuthData) -> bool {
    match a {
        AuthData::ApiKey { key } => !placeholder(key@),
        AuthData::ChatGPT { id_token, access_token, refresh_token, .. } => {
            &&& !placeholder(id_token@)
            &&& !placeholder(access_token@)
            &&& !placeholder(refresh_token@)
        },
    }
}

/// `r` is `a` with every secret field replaced by the marker: same kind,
/// same provider account id.
pub open spec fn redaction_of(r: AuthData, a: AuthData) -> bool {
    match (r, a) {
        (AuthData::ApiKey { key }, AuthData::ApiKey { .. }) => key@ == KEYCHAIN_PLACEHOLDER@,
        (
            AuthData::ChatGPT { id_token, access_token, refresh_token, account_id },
            AuthData::ChatGPT { account_id: old_account_id, .. },
        ) => {
            &&& id_token@ == KEYCHAIN_PLACEHOLDER@
            &&& access_token@ == KEYCHAIN_PLACEHOLDER@
            &&& refresh_token@ == KEYCHAIN_PLACEHOLDER@
            &&& account_id == old_account_id
        },
        _ => false,
    }
}

/// Whether the credential holds the marker in every secret field.
pub open spec fn fully_redacted(a: AuthData) -> bool {
    match a {
        AuthData::ApiKey { key } => key@ == KEYCHAIN_PLACEHOLDER@,
        AuthData::ChatGPT { id_token, access_token, refresh_token, .. } => {
            &&& id_token@ == KEYCHAIN_PLACEHOLDER@
            &&& access_token@ == KEYCHAIN_PLACEHOLDER@
            &&& refresh_token@ == KEYCHAIN_PLACEHOLDER@
        },
    }
}

pub fn is_placeholder_value(value: &str) -> (r: bool)
    ensures
        r == placeholder(value@),
{
    value.is_empty() || same_text(value, KEYCHAIN_PLACEHOLDER)
}

/// Whether the value is present and holds something besides whitespace.
pub fn has_non_empty_value(value: Option<&str>) -> (r: bool)
    ensures
        r == (value is Some && trimmed(value->0@).len() > 0),
{
    match value {
        Some(item) => is_non_blank(item),
        None => false,
    }
}

pub fn auth_data_has_real_secrets(auth_data: &AuthData) -> (r: bool)
    ensures
        r == has_real_secrets(*auth_data),
{
    match auth_data {
        AuthData::ApiKey { key } => !is_placeholder_value(key.as_str()),
        AuthData::ChatGPT { id_token, access_token, refresh_token, .. } => {
            !is_placeholder_value(id_token.as_str()) && !is_placeholder_value(
                access_token.as_str(),
            ) && !is_placeholder_value(refresh_token.as_str())
        },
    }
}

/// An account can be switched to only when its credential is real.
pub fn account_has_usable_credentials(account: &StoredAccount) -> (r: bool)
    ensures
        r == has_real_secrets(account.auth_data),
{
    auth_data_has_real_secrets(&account.auth_data)
}

} // verus!

verus! {

/// Replaces every secret field by the marker, in place.
pub fn redact_auth_data(auth_data: &mut AuthData)
    ensures
        redaction_of(*final(auth_data), *old(auth_data)),
        fully_redacted(*final(auth_data)),
{
    match auth_data {
        AuthData::ApiKey { key } => {
            *key = KEYCHAIN_PLACEHOLDER.to_owned();
        },
        AuthData::ChatGPT { id_token, access_token, refresh_token, .. } => {
            *id_token = KEYCHAIN_PLACEHOLDER.to_owned();
            *access_token = KEYCHAIN_PLACEHOLDER.to_owned();
            *refresh_token = KEYCHAIN_PLACEHOLDER.to_owned();
        },
    }
}

} // verus!

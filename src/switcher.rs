//! Rendering an account into the external tool's session file, switching
//! the active account, importing a session file, and the read-only status
//! summary of the current session file. Reading and writing the file itself
//! is the caller's part.

use vstd::prelude::*;

use crate::claims::{id_token_claims, opt_chars, parse_id_token_claims};
use crate::credentials::{account_has_usable_credentials, has_non_empty_value, has_real_secrets};
use crate::errors::AccountError;
use crate::store::{find_account_index, first_with_id};
use crate::text::{is_non_blank, trimmed};
use crate::types::{
    copy_opt_string, AccountsStore, AuthData, AuthDotJson, AuthMode, CurrentAuthStatus,
    CurrentAuthSummary, StoredAccount, TokenData,
};

verus! {

/// The session file that makes `account` the active credential, stamped
/// `now`: an API key alone, or the token bundle alone with a refresh time.
pub open spec fn session_document(account: StoredAccount, now: i64) -> AuthDotJson {
    match account.auth_data {
        AuthData::ApiKey { key } => AuthDotJson { openai_api_key: Some(key), tokens: None, last_refresh: None },
        AuthData::ChatGPT { id_token, access_token, refresh_token, account_id } => AuthDotJson {
            openai_api_key: None,
            tokens: Some(TokenData { id_token, access_token, refresh_token, account_id }),
            last_refresh: Some(now),
        },
    }
}

pub fn create_auth_json(account: &StoredAccount, now: i64) -> (r: AuthDotJson)
    ensures
        r == session_document(*account, now),
{
    match &account.auth_data {
        AuthData::ApiKey { key } => AuthDotJson {
            openai_api_key: Some(key.clone()),
            tokens: None,
            last_refresh: None,
        },
        AuthData::ChatGPT { id_token, access_token, refresh_token, account_id } => AuthDotJson {
            openai_api_key: None,
            tokens: Some(
                TokenData {
                    id_token: id_token.clone(),
                    access_token: access_token.clone(),
                    refresh_token: refresh_token.clone(),
                    account_id: copy_opt_string(account_id),
                },
            ),
            last_refresh: Some(now),
        },
    }
}

/// The session file to write for `account`; refused when its credential is
/// missing or a placeholder, in which case nothing is to be written.
pub fn switch_to_account(account: &StoredAccount, now: i64) -> (r: Result<AuthDotJson, AccountError>)
    ensures
        r is Ok <==> has_real_secrets(account.auth_data),
        r matches Ok(doc) ==> doc == session_document(*account, now),
        r matches Err(e) ==> e == (AccountError::UnusableCredentials { name: account.name }),
{
    if !account_has_usable_credentials(account) {
        return Err(AccountError::UnusableCredentials { name: account.name.clone() });
    }
    Ok(create_auth_json(account, now))
}

/// Makes the account at position `i` active, stamps its last use with
/// `now`, and returns its session file. Its credential must be usable.
pub fn activate_at(store: &mut AccountsStore, i: usize, now: i64) -> (doc: AuthDotJson)
    requires
        i < old(store).accounts@.len(),
        has_real_secrets(old(store).accounts@[i as int].auth_data),
    ensures
        doc == session_document(old(store).accounts@[i as int], now),
        final(store).active_account_id == Some(old(store).accounts@[i as int].id),
        final(store).accounts@ == old(store).accounts@.update(
            i as int,
            StoredAccount { last_used_at: Some(now), ..old(store).accounts@[i as int] },
        ),
{
    let doc = create_auth_json(&store.accounts[i], now);
    let mut account = store.accounts[i].copy_account();
    account.last_used_at = Some(now);
    store.active_account_id = Some(account.id.clone());
    store.accounts.set(i, account);
    doc
}

/// Switches to the first account with this id: renders its session file,
/// makes it active and stamps its last use with `now`. Either all of that
/// happens or nothing does.
pub fn switch_account(store: &mut AccountsStore, account_id: &str, now: i64) -> (r: Result<AuthDotJson, AccountError>)
    ensures
        r is Err ==> *final(store) == *old(store),
        !old(store).ids().contains(account_id@) ==> (r matches Err(e) && e is AccountNotFound),
        old(store).ids().contains(account_id@) ==> exists|i: int|
            {
                &&& first_with_id(old(store).accounts@, account_id@, i)
                &&& (r is Ok <==> has_real_secrets(old(store).accounts@[i].auth_data))
                &&& (r matches Err(e) ==> e is UnusableCredentials)
                &&& (r matches Ok(doc) ==> {
                    &&& doc == session_document(old(store).accounts@[i], now)
                    &&& final(store).active_account_id == Some(old(store).accounts@[i].id)
                    &&& final(store).accounts@ == old(store).accounts@.update(
                        i,
                        StoredAccount { last_used_at: Some(now), ..old(store).accounts@[i] },
                    )
                })
            },
{
    let i = match find_account_index(store.accounts.as_slice(), account_id) {
        Some(i) => i,
        None => {
            return Err(AccountError::AccountNotFound { account_id: account_id.to_owned() });
        },
    };
    if !account_has_usable_credentials(&store.accounts[i]) {
        return Err(AccountError::UnusableCredentials { name: store.accounts[i].name.clone() });
    }
    Ok(activate_at(store, i, now))
}

/// Whether the session file, if present, holds either credential.
pub fn has_active_login(current: &Option<AuthDotJson>) -> (r: bool)
    ensures
        r == (current matches Some(auth) && (auth.openai_api_key is Some || auth.tokens is Some)),
{
    match current {
        Some(auth) => auth.openai_api_key.is_some() || auth.tokens.is_some(),
        None => false,
    }
}

/// Any token of the bundle is blank.
pub open spec fn has_blank_token(t: TokenData) -> bool {
    ||| trimmed(t.id_token@).len() == 0
    ||| trimmed(t.access_token@).len() == 0
    ||| trimmed(t.refresh_token@).len() == 0
}

/// Status, kind, email, plan and message that a parsed session file shows.
pub open spec fn derived_fields(auth: AuthDotJson) -> (
    CurrentAuthStatus,
    Option<AuthMode>,
    Option<Seq<char>>,
    Option<Seq<char>>,
    Option<Seq<char>>,
) {
    if auth.openai_api_key matches Some(k) && trimmed(k@).len() > 0 {
        (CurrentAuthStatus::Ready, Some(AuthMode::ApiKey), None, None, None)
    } else {
        match auth.tokens {
            Some(t) => if has_blank_token(t) {
                (CurrentAuthStatus::Invalid, None, None, None, Some("auth.json contains empty token values"@))
            } else {
                let claims = id_token_claims(t.id_token@);
                (CurrentAuthStatus::Ready, Some(AuthMode::ChatGPT), claims.0, claims.1, None)
            },
            None => (
                CurrentAuthStatus::Invalid,
                None,
                None,
                None,
                Some("auth.json contains neither API key nor tokens"@),
            ),
        }
    }
}

/// The fields of a summary that `derived_fields` speaks of.
pub open spec fn fields_of(r: CurrentAuthSummary) -> (
    CurrentAuthStatus,
    Option<AuthMode>,
    Option<Seq<char>>,
    Option<Seq<char>>,
    Option<Seq<char>>,
) {
    (r.status, r.auth_mode, opt_chars(r.email), opt_chars(r.plan_type), opt_chars(r.message))
}

/// The status and credential kind a parsed session file shows.
pub open spec fn derived_status(auth: AuthDotJson) -> (CurrentAuthStatus, Option<AuthMode>) {
    if auth.openai_api_key matches Some(k) && trimmed(k@).len() > 0 {
        (CurrentAuthStatus::Ready, Some(AuthMode::ApiKey))
    } else {
        match auth.tokens {
            Some(t) => if has_blank_token(t) {
                (CurrentAuthStatus::Invalid, None)
            } else {
                (CurrentAuthStatus::Ready, Some(AuthMode::ChatGPT))
            },
            None => (CurrentAuthStatus::Invalid, None),
        }
    }
}

fn summary(
    status: CurrentAuthStatus,
    auth_mode: Option<AuthMode>,
    email: Option<String>,
    plan_type: Option<String>,
    auth_file_path: String,
    snapshots_dir_path: String,
    last_modified_at: Option<i64>,
    message: Option<String>,
) -> (r: CurrentAuthSummary)
    ensures
        r == (CurrentAuthSummary {
            status,
            auth_mode,
            email,
            plan_type,
            auth_file_path,
            snapshots_dir_path,
            last_modified_at,
            message,
        }),
{
    CurrentAuthSummary {
        status,
        auth_mode,
        email,
        plan_type,
        auth_file_path,
        snapshots_dir_path,
        last_modified_at,
        message,
    }
}

/// The status summary of a parsed session file. Email and plan come from
/// the id token's claims, read without any signature check, for display.
pub fn derive_summary_from_auth(
    auth: &AuthDotJson,
    auth_file_path: String,
    snapshots_dir_path: String,
    last_modified_at: Option<i64>,
) -> (r: CurrentAuthSummary)
    ensures
        (r.status, r.auth_mode) == derived_status(*auth),
        fields_of(r) == derived_fields(*auth),
        r.auth_file_path == auth_file_path,
        r.snapshots_dir_path == snapshots_dir_path,
        r.last_modified_at == last_modified_at,
{
    let api_key = match &auth.openai_api_key {
        Some(k) => Some(k.as_str()),
        None => None,
    };
    if has_non_empty_value(api_key) {
        return summary(
            CurrentAuthStatus::Ready,
            Some(AuthMode::ApiKey),
            None,
            None,
            auth_file_path,
            snapshots_dir_path,
            last_modified_at,
            None,
        );
    }
    if let Some(tokens) = &auth.tokens {
        if !is_non_blank(tokens.id_token.as_str()) || !is_non_blank(tokens.access_token.as_str())
            || !is_non_blank(tokens.refresh_token.as_str()) {
            return summary(
                CurrentAuthStatus::Invalid,
                None,
                None,
                None,
                auth_file_path,
                snapshots_dir_path,
                last_modified_at,
                Some("auth.json contains empty token values".to_owned()),
            );
        }
        let (email, plan_type) = parse_id_token_claims(tokens.id_token.as_str());
        return summary(
            CurrentAuthStatus::Ready,
            Some(AuthMode::ChatGPT),
            email,
            plan_type,
            auth_file_path,
            snapshots_dir_path,
            last_modified_at,
            None,
        );
    }
    summary(
        CurrentAuthStatus::Invalid,
        None,
        None,
        None,
        auth_file_path,
        snapshots_dir_path,
        last_modified_at,
        Some("auth.json contains neither API key nor tokens".to_owned()),
    )
}

/// What reading the session file gave.
#[derive(Clone, Debug)]
pub enum SessionRead {
    /// There is no session file.
    Missing,
    /// The file exists but could not be read; the cause, described.
    Unreadable(String),
    /// The file was read but is not a session document; the cause, described.
    Unparseable(String),
    Parsed(AuthDotJson),
}

/// The status summary of the current session file: `Missing` when absent,
/// `Error` when unreadable or unparseable (with the cause), otherwise as
/// derived from the parsed document. The modification time is kept only
/// for a file that exists.
pub fn build_current_auth_summary(
    read: SessionRead,
    auth_file_path: String,
    snapshots_dir_path: String,
    last_modified_at: Option<i64>,
) -> (r: CurrentAuthSummary)
    ensures
        r.auth_file_path == auth_file_path,
        r.snapshots_dir_path == snapshots_dir_path,
        read is Missing ==> r.last_modified_at is None && fields_of(r) == (
            CurrentAuthStatus::Missing,
            None::<AuthMode>,
            None::<Seq<char>>,
            None::<Seq<char>>,
            Some("No active Codex session file was found"@),
        ),
        read matches SessionRead::Unreadable(cause) ==> r.last_modified_at == last_modified_at && fields_of(r)
            == (
            CurrentAuthStatus::Error,
            None::<AuthMode>,
            None::<Seq<char>>,
            None::<Seq<char>>,
            Some("Failed to read auth.json: "@ + cause@),
        ),
        read matches SessionRead::Unparseable(cause) ==> r.last_modified_at == last_modified_at && fields_of(r)
            == (
            CurrentAuthStatus::Error,
            None::<AuthMode>,
            None::<Seq<char>>,
            None::<Seq<char>>,
            Some("Failed to parse auth.json: "@ + cause@),
        ),
        read matches SessionRead::Parsed(auth) ==> r.last_modified_at == last_modified_at && fields_of(r)
            == derived_fields(auth) && (r.status, r.auth_mode) == derived_status(auth),
{
    match read {
        SessionRead::Missing => summary(
            CurrentAuthStatus::Missing,
            None,
            None,
            None,
            auth_file_path,
            snapshots_dir_path,
            None,
            Some("No active Codex session file was found".to_owned()),
        ),
        SessionRead::Unreadable(cause) => {
            let mut m = "Failed to read auth.json: ".to_owned();
            m.append(cause.as_str());
            summary(
                CurrentAuthStatus::Error,
                None,
                None,
                None,
                auth_file_path,
                snapshots_dir_path,
                last_modified_at,
                Some(m),
            )
        },
        SessionRead::Unparseable(cause) => {
            let mut m = "Failed to parse auth.json: ".to_owned();
            m.append(cause.as_str());
            summary(
                CurrentAuthStatus::Error,
                None,
                None,
                None,
                auth_file_path,
                snapshots_dir_path,
                last_modified_at,
                Some(m),
            )
        },
        SessionRead::Parsed(auth) => derive_summary_from_auth(
            &auth,
            auth_file_path,
            snapshots_dir_path,
            last_modified_at,
        ),
    }
}

} // verus!

verus! {

/// A new, unsaved account from a parsed session file: the API key when
/// present, else the token bundle (with email and plan read from the id
/// token's claims, for display); fails when the file holds neither.
pub fn import_from_auth_json(auth: AuthDotJson, id: String, created_at: i64, account_name: String) -> (r: Result<
    StoredAccount,
    AccountError,
>)
    ensures
        r is Err <==> auth.openai_api_key is None && auth.tokens is None,
        r matches Err(e) ==> e is NoCredentials,
        r matches Ok(a) ==> {
            &&& a.id == id
            &&& a.name == account_name
            &&& a.created_at == created_at
            &&& a.last_used_at is None
        },
        auth.openai_api_key matches Some(key) ==> r matches Ok(a) && a.auth_mode == AuthMode::ApiKey
            && a.auth_data == (AuthData::ApiKey { key }) && a.email is None && a.plan_type is None,
        auth.openai_api_key is None ==> (auth.tokens matches Some(t) ==> r matches Ok(a) && a.auth_mode
            == AuthMode::ChatGPT && a.auth_data == (AuthData::ChatGPT {
            id_token: t.id_token,
            access_token: t.access_token,
            refresh_token: t.refresh_token,
            account_id: t.account_id,
        }) && (opt_chars(a.email), opt_chars(a.plan_type)) == id_token_claims(t.id_token@)),
{
    if let Some(api_key) = auth.openai_api_key {
        Ok(StoredAccount::new_api_key(id, created_at, account_name, api_key))
    } else if let Some(tokens) = auth.tokens {
        let (email, plan_type) = parse_id_token_claims(tokens.id_token.as_str());
        Ok(
            StoredAccount::new_chatgpt(
                id,
                created_at,
                account_name,
                email,
                plan_type,
                tokens.id_token,
                tokens.access_token,
                tokens.refresh_token,
                tokens.account_id,
            ),
        )
    } else {
        Err(AccountError::NoCredentials)
    }
}

} // verus!

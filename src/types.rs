//! Plain data types shared by the account store, the switcher and the
//! login coordinator. Timestamps are Unix seconds (UTC).

use vstd::prelude::*;

verus! {

/// Which kind of credential an account holds.
#[derive(Clone, Copy, Debug, PartialEq, Eq, Structural)]
pub enum AuthMode {
    ApiKey,
    ChatGPT,
}

/// The credential payload of an account.
#[derive(Clone, Debug)]
pub enum AuthData {
    ApiKey { key: String },
    ChatGPT {
        id_token: String,
        access_token: String,
        refresh_token: String,
        account_id: Option<String>,
    },
}

impl AuthData {
    pub fn copy_data(&self) -> (r: AuthData)
        ensures
            r == *self,
    {
        match self {
            AuthData::ApiKey { key } => AuthData::ApiKey { key: key.clone() },
            AuthData::ChatGPT { id_token, access_token, refresh_token, account_id } => {
                AuthData::ChatGPT {
                    id_token: id_token.clone(),
                    access_token: access_token.clone(),
                    refresh_token: refresh_token.clone(),
                    account_id: copy_opt_string(account_id),
                }
            },
        }
    }
}

/// Copies an optional string, keeping its contents.
pub fn copy_opt_string(s: &Option<String>) -> (r: Option<String>)
    ensures
        r == *s,
{
    match s {
        Some(v) => Some(v.clone()),
        None => None,
    }
}

} // verus!

verus! {

/// One account of the index: metadata plus its credential.
#[derive(Clone, Debug)]
pub struct StoredAccount {
    pub id: String,
    pub name: String,
    pub email: Option<String>,
    pub plan_type: Option<String>,
    pub auth_mode: AuthMode,
    pub auth_data: AuthData,
    pub created_at: i64,
    pub last_used_at: Option<i64>,
}

impl StoredAccount {
    /// An API-key account; `id` and `created_at` are supplied by the caller.
    pub fn new_api_key(id: String, created_at: i64, name: String, key: String) -> (r: StoredAccount)
        ensures
            r.id == id,
            r.name == name,
            r.email is None,
            r.plan_type is None,
            r.auth_mode == AuthMode::ApiKey,
            r.auth_data == (AuthData::ApiKey { key }),
            r.created_at == created_at,
            r.last_used_at is None,
    {
        StoredAccount {
            id,
            name,
            email: None,
            plan_type: None,
            auth_mode: AuthMode::ApiKey,
            auth_data: AuthData::ApiKey { key },
            created_at,
            last_used_at: None,
        }
    }

    /// A ChatGPT OAuth account; `id` and `created_at` are supplied by the caller.
    pub fn new_chatgpt(
        id: String,
        created_at: i64,
        name: String,
        email: Option<String>,
        plan_type: Option<String>,
        id_token: String,
        access_token: String,
        refresh_token: String,
        account_id: Option<String>,
    ) -> (r: StoredAccount)
        ensures
            r.id == id,
            r.name == name,
            r.email == email,
            r.plan_type == plan_type,
            r.auth_mode == AuthMode::ChatGPT,
            r.auth_data == (AuthData::ChatGPT { id_token, access_token, refresh_token, account_id }),
            r.created_at == created_at,
            r.last_used_at is None,
    {
        StoredAccount {
            id,
            name,
            email,
            plan_type,
            auth_mode: AuthMode::ChatGPT,
            auth_data: AuthData::ChatGPT { id_token, access_token, refresh_token, account_id },
            created_at,
            last_used_at: None,
        }
    }

    pub fn copy_account(&self) -> (r: StoredAccount)
        ensures
            r == *self,
    {
        StoredAccount {
            id: self.id.clone(),
            name: self.name.clone(),
            email: copy_opt_string(&self.email),
            plan_type: copy_opt_string(&self.plan_type),
            auth_mode: self.auth_mode,
            auth_data: self.auth_data.copy_data(),
            created_at: self.created_at,
            last_used_at: self.last_used_at,
        }
    }
}

/// The account index: accounts in display order and the active account.
#[derive(Clone, Debug)]
pub struct AccountsStore {
    pub accounts: Vec<StoredAccount>,
    pub active_account_id: Option<String>,
}

/// The OAuth token bundle of the session file.
#[derive(Clone, Debug)]
pub struct TokenData {
    pub id_token: String,
    pub access_token: String,
    pub refresh_token: String,
    pub account_id: Option<String>,
}

/// The external tool's session file.
#[derive(Clone, Debug)]
pub struct AuthDotJson {
    pub openai_api_key: Option<String>,
    pub tokens: Option<TokenData>,
    pub last_refresh: Option<i64>,
}

/// Status of the current session file.
#[derive(Clone, Copy, Debug, PartialEq, Eq, Structural)]
pub enum CurrentAuthStatus {
    Missing,
    Ready,
    Invalid,
    Error,
}

/// Read-only diagnostic projection of the current session file.
#[derive(Clone, Debug)]
pub struct CurrentAuthSummary {
    pub status: CurrentAuthStatus,
    pub auth_mode: Option<AuthMode>,
    pub email: Option<String>,
    pub plan_type: Option<String>,
    pub auth_file_path: String,
    pub snapshots_dir_path: String,
    pub last_modified_at: Option<i64>,
    pub message: Option<String>,
}

/// What the user interface shows of one account.
#[derive(Clone, Debug)]
pub struct AccountInfo {
    pub id: String,
    pub name: String,
    pub email: Option<String>,
    pub plan_type: Option<String>,
    pub auth_mode: AuthMode,
    pub is_active: bool,
    pub created_at: i64,
    pub last_used_at: Option<i64>,
}

/// Information about running CLI processes.
#[derive(Clone, Debug)]
pub struct CodexProcessInfo {
    /// Number of running processes
    pub count: usize,
    /// Whether switching is allowed (no processes running)
    pub can_switch: bool,
    /// Process ids of the running processes
    pub pids: Vec<u32>,
}

impl CodexProcessInfo {
    pub fn from_pids(pids: Vec<u32>) -> (r: CodexProcessInfo)
        ensures
            r.pids@ == pids@,
            r.count == pids@.len(),
            r.can_switch == (pids@.len() == 0),
    {
        let count = pids.len();
        CodexProcessInfo { count, can_switch: count == 0, pids }
    }
}

} // verus!

verus! {

impl AccountInfo {
    /// The display record of an account; `active_id` is the index's active id.
    pub fn from_stored(account: &StoredAccount, active_id: Option<&str>) -> (r: AccountInfo)
        ensures
            r.id == account.id,
            r.name == account.name,
            r.email == account.email,
            r.plan_type == account.plan_type,
            r.auth_mode == account.auth_mode,
            r.created_at == account.created_at,
            r.last_used_at == account.last_used_at,
            r.is_active == (active_id matches Some(a) && a@ == account.id@),
    {
        let is_active = match active_id {
            Some(a) => crate::text::same_text(a, account.id.as_str()),
            None => false,
        };
        AccountInfo {
            id: account.id.clone(),
            name: account.name.clone(),
            email: copy_opt_string(&account.email),
            plan_type: copy_opt_string(&account.plan_type),
            auth_mode: account.auth_mode,
            is_active,
            created_at: account.created_at,
            last_used_at: account.last_used_at,
        }
    }
}

} // verus!

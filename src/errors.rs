//! The error taxonomy of the account store, the switcher and the login
//! coordinator. Each error renders as one descriptive message.

use vstd::prelude::*;

verus! {

#[derive(Clone, Debug)]
pub enum AccountError {
    /// No account has the given id.
    AccountNotFound { account_id: String },
    /// Another account already has this exact name.
    DuplicateName { name: String },
    /// The ids given for a reorder are not a permutation of the stored ids.
    ReorderMismatch { expected: usize, given: usize },
    /// The account's secret is missing or a placeholder.
    UnusableCredentials { name: String },
    /// Reconnect was asked for an account that is not an OAuth account.
    NotOAuthAccount { account_id: String },
    /// A session file holds neither an API key nor tokens.
    NoCredentials,
    /// A reconnect delivered an API-key account instead of OAuth tokens.
    UnexpectedOAuthResult,
    /// The user's home directory could not be found.
    NoHomeDirectory,
    /// The secret vault failed; `context` says what was attempted.
    Storage { context: String, cause: String },
    /// A freshly written secret could not be read back. `cause` is the
    /// vault's failure, or `None` when the secret was simply absent.
    VerificationFailed { account_name: String, cause: Option<String> },
}

/// Errors of the single-flight login coordinator.
#[derive(Clone, Debug)]
pub enum LoginError {
    /// No login or reconnect is pending.
    NoPendingFlow,
    /// The pending flow is of the other kind.
    ModeMismatch { expected_reconnect: bool },
}

/// Appends `parts` to `s`, in order.
fn push_text(s: &mut String, part: &str)
    ensures
        final(s)@ == old(s)@ + part@,
{
    s.append(part);
}

impl AccountError {
    /// The text of `message`.
    pub open spec fn message_text(&self) -> Seq<char> {
        match self {
            AccountError::AccountNotFound { account_id } => "Account not found: "@ + account_id@,
            AccountError::DuplicateName { name } => "An account with name '"@ + name@ + "' already exists"@,
            AccountError::ReorderMismatch { .. } => "Account order must list every stored account id exactly once"@,
            AccountError::UnusableCredentials { name } => "Missing stored credentials for account '"@ + name@
                + "'. Re-add this account to restore access."@,
            AccountError::NotOAuthAccount { .. } => "Reconnect is only available for ChatGPT OAuth accounts"@,
            AccountError::NoCredentials => "auth.json contains neither API key nor tokens"@,
            AccountError::UnexpectedOAuthResult => "Unexpected OAuth result for reconnect"@,
            AccountError::NoHomeDirectory => "Could not find home directory"@,
            AccountError::Storage { context, cause } => context@ + ": "@ + cause@,
            AccountError::VerificationFailed { account_name, cause } => match cause {
                Some(c) => "Failed to verify keychain credentials for account '"@ + account_name@ + "': "@
                    + c@,
                None => "Failed to verify keychain credentials for account '"@ + account_name@
                    + "': secret missing after write"@,
            },
        }
    }

    /// The descriptive message shown to the user.
    pub fn message(&self) -> (r: String)
        ensures
            r@ == self.message_text(),
    {
        let mut s = String::new();
        match self {
            AccountError::AccountNotFound { account_id } => {
                push_text(&mut s, "Account not found: ");
                push_text(&mut s, account_id.as_str());
            },
            AccountError::DuplicateName { name } => {
                push_text(&mut s, "An account with name '");
                push_text(&mut s, name.as_str());
                push_text(&mut s, "' already exists");
            },
            AccountError::ReorderMismatch { .. } => {
                push_text(&mut s, "Account order must list every stored account id exactly once");
            },
            AccountError::UnusableCredentials { name } => {
                push_text(&mut s, "Missing stored credentials for account '");
                push_text(&mut s, name.as_str());
                push_text(&mut s, "'. Re-add this account to restore access.");
            },
            AccountError::NotOAuthAccount { .. } => {
                push_text(&mut s, "Reconnect is only available for ChatGPT OAuth accounts");
            },
            AccountError::NoCredentials => {
                push_text(&mut s, "auth.json contains neither API key nor tokens");
            },
            AccountError::UnexpectedOAuthResult => {
                push_text(&mut s, "Unexpected OAuth result for reconnect");
            },
            AccountError::NoHomeDirectory => {
                push_text(&mut s, "Could not find home directory");
            },
            AccountError::Storage { context, cause } => {
                push_text(&mut s, context.as_str());
                push_text(&mut s, ": ");
                push_text(&mut s, cause.as_str());
            },
            AccountError::VerificationFailed { account_name, cause } => {
                push_text(&mut s, "Failed to verify keychain credentials for account '");
                push_text(&mut s, account_name.as_str());
                match cause {
                    Some(c) => {
                        push_text(&mut s, "': ");
                        push_text(&mut s, c.as_str());
                    },
                    None => {
                        push_text(&mut s, "': secret missing after write");
                    },
                }
            },
        }
        proof {
            assert(s@ =~= self.message_text());
        }
        s
    }
}

impl LoginError {
    /// The text of `message`.
    pub open spec fn message_text(&self) -> Seq<char> {
        match self {
            LoginError::NoPendingFlow => "No pending OAuth login"@,
            LoginError::ModeMismatch { expected_reconnect } => if *expected_reconnect {
                "Pending OAuth flow is not a reconnect"@
            } else {
                "Pending OAuth flow is not a new account login"@
            },
        }
    }

    /// The descriptive message shown to the user.
    pub fn message(&self) -> (r: String)
        ensures
            r@ == self.message_text(),
    {
        match self {
            LoginError::NoPendingFlow => "No pending OAuth login".to_owned(),
            LoginError::ModeMismatch { expected_reconnect } => {
                if *expected_reconnect {
                    "Pending OAuth flow is not a reconnect".to_owned()
                } else {
                    "Pending OAuth flow is not a new account login".to_owned()
                }
            },
        }
    }
}

} // verus!

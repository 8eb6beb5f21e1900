use codex_switcher::errors::AccountError;
use codex_switcher::secret_store::verify_keychain_secret_with_loader;
use codex_switcher::store::resolve_active_account_id;
use codex_switcher::types::{AuthData, StoredAccount};

fn make_account(id: &str, name: &str) -> StoredAccount {
    StoredAccount::new_api_key(id.to_string(), 0, name.to_string(), "sk-test".to_string())
}

#[test]
fn keeps_existing_active_account_when_present() {
    let accounts = vec![make_account("a-1", "One"), make_account("a-2", "Two")];

    let active = resolve_active_account_id(
        &accounts,
        Some("a-2"),
        &["a-1".to_string(), "a-2".to_string()],
    );

    assert_eq!(active.as_deref(), Some("a-2"));
}

#[test]
fn falls_back_to_first_accessible_account_when_active_missing() {
    let accounts = vec![make_account("a-1", "One"), make_account("a-2", "Two")];

    let active = resolve_active_account_id(
        &accounts,
        Some("a-9"),
        &["a-1".to_string(), "a-2".to_string()],
    );

    assert_eq!(active.as_deref(), Some("a-1"));
}

#[test]
fn returns_none_when_no_accounts_available() {
    let active = resolve_active_account_id(&[], Some("a-1"), &[]);

    assert_eq!(active, None);
}

#[test]
fn falls_back_to_first_accessible_when_current_active_is_inaccessible() {
    let accounts = vec![make_account("a-1", "One"), make_account("a-2", "Two")];

    let active = resolve_active_account_id(&accounts, Some("a-1"), &["a-2".to_string()]);

    assert_eq!(active.as_deref(), Some("a-2"));
}

#[test]
fn clears_active_account_when_no_accessible_accounts_exist() {
    let accounts = vec![make_account("a-1", "One"), make_account("a-2", "Two")];

    let active = resolve_active_account_id(&accounts, Some("a-1"), &[]);

    assert_eq!(active, None);
}

#[test]
fn first_accessible_follows_stored_order() {
    let accounts = vec![make_account("a-1", "One"), make_account("a-2", "Two")];

    let active = resolve_active_account_id(&accounts, None, &["a-2".to_string(), "a-1".to_string()]);

    assert_eq!(active.as_deref(), Some("a-1"));
}

#[test]
fn keychain_verification_succeeds_when_secret_is_present() {
    let outcome = verify_keychain_secret_with_loader("a-1", "One", |_| {
        Ok(Some(AuthData::ApiKey {
            key: "sk-test".to_string(),
        }))
    });

    assert!(outcome.is_ok());
}

#[test]
fn keychain_verification_fails_when_secret_missing_after_write() {
    let outcome =
        verify_keychain_secret_with_loader("a-1", "One", |_| Ok::<Option<AuthData>, AccountError>(None));

    let error_text = outcome.expect_err("expected failure").message();
    assert!(error_text.contains("secret missing after write"));
}

#[test]
fn keychain_verification_preserves_loader_error_context() {
    let outcome = verify_keychain_secret_with_loader("a-1", "One", |_| {
        Err::<Option<AuthData>, AccountError>(AccountError::Storage {
            context: "Failed to read credentials for account".to_string(),
            cause: "backend unavailable".to_string(),
        })
    });

    let error_text = outcome.expect_err("expected failure").message();
    assert!(error_text.contains("Failed to verify keychain credentials"));
    assert!(error_text.contains("backend unavailable"));
}

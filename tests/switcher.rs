use codex_switcher::credentials::account_has_usable_credentials;
use codex_switcher::snapshot::build_snapshot_filename;
use codex_switcher::switcher::derive_summary_from_auth;
use codex_switcher::types::{AuthDotJson, AuthMode, CurrentAuthStatus, StoredAccount, TokenData};

fn now_seconds() -> i64 {
    chrono::Utc::now().timestamp()
}

#[test]
fn rejects_placeholder_chatgpt_credentials() {
    let mut account = StoredAccount::new_chatgpt(
        "tmp".to_string(),
        0,
        "Work".to_string(),
        Some("user@example.com".to_string()),
        Some("plus".to_string()),
        "__stored_in_keychain__".to_string(),
        "__stored_in_keychain__".to_string(),
        "__stored_in_keychain__".to_string(),
        Some("acc-1".to_string()),
    );
    account.id = "acc-1".to_string();

    assert!(!account_has_usable_credentials(&account));
}

#[test]
fn accepts_real_chatgpt_credentials() {
    let mut account = StoredAccount::new_chatgpt(
        "tmp".to_string(),
        0,
        "Work".to_string(),
        Some("user@example.com".to_string()),
        Some("plus".to_string()),
        "id-real".to_string(),
        "access-real".to_string(),
        "refresh-real".to_string(),
        Some("acc-2".to_string()),
    );
    account.id = "acc-2".to_string();

    assert!(account_has_usable_credentials(&account));
}

#[test]
fn derives_ready_summary_from_chatgpt_auth_payload() {
    let auth = AuthDotJson {
        openai_api_key: None,
        tokens: Some(TokenData {
            id_token: "not-a-jwt".to_string(),
            access_token: "access-token".to_string(),
            refresh_token: "refresh-token".to_string(),
            account_id: Some("acct-1".to_string()),
        }),
        last_refresh: Some(now_seconds()),
    };

    let summary = derive_summary_from_auth(
        &auth,
        "/tmp/.codex/auth.json".to_string(),
        "/tmp/.codex-switcher/snapshots".to_string(),
        None,
    );

    assert!(matches!(summary.status, CurrentAuthStatus::Ready));
    assert!(matches!(summary.auth_mode, Some(AuthMode::ChatGPT)));
    assert_eq!(summary.auth_file_path, "/tmp/.codex/auth.json");
}

#[test]
fn marks_summary_invalid_when_tokens_are_empty() {
    let auth = AuthDotJson {
        openai_api_key: None,
        tokens: Some(TokenData {
            id_token: "".to_string(),
            access_token: "access-token".to_string(),
            refresh_token: "refresh-token".to_string(),
            account_id: None,
        }),
        last_refresh: Some(now_seconds()),
    };

    let summary = derive_summary_from_auth(
        &auth,
        "/tmp/.codex/auth.json".to_string(),
        "/tmp/.codex-switcher/snapshots".to_string(),
        None,
    );

    assert!(matches!(summary.status, CurrentAuthStatus::Invalid));
}

#[test]
fn snapshot_filename_changes_on_collision_index() {
    let now = now_seconds();
    let first = build_snapshot_filename(now, 0).unwrap();
    let second = build_snapshot_filename(now, 1).unwrap();

    assert_ne!(first, second);
    assert!(first.ends_with(".json"));
}

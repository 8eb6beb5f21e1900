use std::sync::atomic::{AtomicBool, Ordering};
use std::sync::Arc;

use codex_switcher::claims::parse_id_token_claims;
use codex_switcher::paths::get_codex_auth_file;
use codex_switcher::secret_store::{entry_username, interpret_delete, interpret_read, VaultOutcome};
use codex_switcher::snapshot::{
    build_snapshot_filename, next_snapshot_step, CreateOutcome, SnapshotStep, SNAPSHOT_ATTEMPTS,
};
use codex_switcher::credentials::{
    has_non_empty_value, is_placeholder_value, redact_auth_data, KEYCHAIN_PLACEHOLDER,
};
use codex_switcher::errors::{AccountError, LoginError};
use codex_switcher::login::{complete_reconnect, reconnect_account_name, LoginCoordinator, PendingOAuthMode};
use codex_switcher::store::{
    get_account, get_active_account, insert_account, reconcile_accounts, redacted_store,
    remove_account, reorder_accounts, set_active_account, touch_account, update_account_metadata,
};
use codex_switcher::switcher::{
    build_current_auth_summary, has_active_login, import_from_auth_json, switch_account,
    switch_to_account, SessionRead,
};
use codex_switcher::types::{
    AccountInfo, AccountsStore, AuthData, AuthDotJson, AuthMode, CodexProcessInfo,
    CurrentAuthStatus, StoredAccount, TokenData,
};

fn api_account(id: &str, name: &str, key: &str) -> StoredAccount {
    StoredAccount::new_api_key(id.to_string(), 100, name.to_string(), key.to_string())
}

fn oauth_account(id: &str, name: &str, token: &str) -> StoredAccount {
    StoredAccount::new_chatgpt(
        id.to_string(),
        100,
        name.to_string(),
        None,
        None,
        format!("{token}-id"),
        format!("{token}-access"),
        format!("{token}-refresh"),
        Some("provider-1".to_string()),
    )
}

fn empty_store() -> AccountsStore {
    AccountsStore { accounts: Vec::new(), active_account_id: None }
}

fn ids(store: &AccountsStore) -> Vec<String> {
    store.accounts.iter().map(|a| a.id.clone()).collect()
}

#[test]
fn first_account_becomes_active_then_follows_removal_and_reorder_fails() {
    let mut store = empty_store();
    insert_account(&mut store, api_account("A", "Account A", "sk-test")).unwrap();
    assert_eq!(store.active_account_id.as_deref(), Some("A"));

    insert_account(&mut store, api_account("B", "Account B", "sk-other")).unwrap();
    assert_eq!(store.active_account_id.as_deref(), Some("A"));

    remove_account(&mut store, "A").unwrap();
    assert_eq!(store.active_account_id.as_deref(), Some("B"));

    let err = reorder_accounts(&mut store, &["A".to_string()]).unwrap_err();
    assert!(matches!(err, AccountError::ReorderMismatch { expected: 1, given: 1 }));
    assert_eq!(ids(&store), vec!["B".to_string()]);
}

#[test]
fn duplicate_name_is_refused_whatever_the_other_fields() {
    let mut store = empty_store();
    insert_account(&mut store, api_account("A", "Work", "sk-1")).unwrap();
    let err = insert_account(&mut store, oauth_account("B", "Work", "tok")).unwrap_err();
    assert!(matches!(err, AccountError::DuplicateName { ref name } if name == "Work"));
    assert_eq!(store.accounts.len(), 1);
    // Names are compared case-sensitively.
    insert_account(&mut store, api_account("C", "work", "sk-2")).unwrap();
    assert_eq!(store.accounts.len(), 2);
}

#[test]
fn reorder_accepts_only_permutations() {
    let mut store = empty_store();
    for (id, name) in [("a", "A"), ("b", "B"), ("c", "C")] {
        insert_account(&mut store, api_account(id, name, "sk")).unwrap();
    }
    let before = ids(&store);
    let bad_inputs: Vec<Vec<&str>> = vec![
        vec!["a", "b"],
        vec!["a", "b", "c", "d"],
        vec!["a", "a", "b"],
        vec!["a", "b", "x"],
    ];
    for bad in bad_inputs {
        let given: Vec<String> = bad.iter().map(|s| s.to_string()).collect();
        assert!(reorder_accounts(&mut store, &given).is_err());
        assert_eq!(ids(&store), before);
    }
    let order = vec!["c".to_string(), "a".to_string(), "b".to_string()];
    reorder_accounts(&mut store, &order).unwrap();
    assert_eq!(ids(&store), order);
    assert_eq!(store.active_account_id.as_deref(), Some("a"));
}

#[test]
fn removing_the_last_active_account_clears_active() {
    let mut store = empty_store();
    insert_account(&mut store, api_account("only", "Only", "sk")).unwrap();
    remove_account(&mut store, "only").unwrap();
    assert!(store.accounts.is_empty());
    assert_eq!(store.active_account_id, None);
}

#[test]
fn removing_an_inactive_account_keeps_active() {
    let mut store = empty_store();
    insert_account(&mut store, api_account("a", "A", "sk")).unwrap();
    insert_account(&mut store, api_account("b", "B", "sk")).unwrap();
    remove_account(&mut store, "b").unwrap();
    assert_eq!(store.active_account_id.as_deref(), Some("a"));
}

#[test]
fn unknown_ids_are_not_found() {
    let mut store = empty_store();
    insert_account(&mut store, api_account("a", "A", "sk")).unwrap();
    let err = remove_account(&mut store, "zz").unwrap_err();
    assert_eq!(err.message(), "Account not found: zz");
    assert!(matches!(set_active_account(&mut store, "zz"), Err(AccountError::AccountNotFound { .. })));
    assert!(matches!(
        update_account_metadata(&mut store, "zz", None, None, None),
        Err(AccountError::AccountNotFound { .. })
    ));
    assert!(get_account(&store, "zz").is_none());
    assert!(!touch_account(&mut store, "zz", 5));
    assert_eq!(store.accounts[0].last_used_at, None);
}

#[test]
fn metadata_updates_apply_only_given_fields() {
    let mut store = empty_store();
    insert_account(&mut store, api_account("a", "A", "sk")).unwrap();
    insert_account(&mut store, api_account("b", "B", "sk")).unwrap();
    let err = update_account_metadata(&mut store, "a", Some("B".to_string()), None, None).unwrap_err();
    assert_eq!(err.message(), "An account with name 'B' already exists");
    assert!(matches!(
        update_account_metadata(&mut store, "zz", Some("B".to_string()), None, None),
        Err(AccountError::DuplicateName { .. })
    ));
    // Renaming an account to its own name is allowed.
    update_account_metadata(&mut store, "a", Some("A".to_string()), Some("a@x.io".to_string()), None)
        .unwrap();
    update_account_metadata(&mut store, "a", None, None, Some("pro".to_string())).unwrap();
    let a = get_account(&store, "a").unwrap();
    assert_eq!(a.name, "A");
    assert_eq!(a.email.as_deref(), Some("a@x.io"));
    assert_eq!(a.plan_type.as_deref(), Some("pro"));
}

#[test]
fn set_active_and_touch() {
    let mut store = empty_store();
    insert_account(&mut store, api_account("a", "A", "sk")).unwrap();
    insert_account(&mut store, api_account("b", "B", "sk")).unwrap();
    set_active_account(&mut store, "b").unwrap();
    assert_eq!(get_active_account(&store).unwrap().id, "b");
    assert!(touch_account(&mut store, "b", 1234));
    assert_eq!(store.accounts[1].last_used_at, Some(1234));
}

#[test]
fn redacted_index_holds_no_secret_and_reload_restores_it() {
    let mut store = empty_store();
    insert_account(&mut store, api_account("a", "A", "sk-real")).unwrap();
    insert_account(&mut store, oauth_account("b", "B", "tok")).unwrap();
    let on_disk = redacted_store(&store);
    for account in &on_disk.accounts {
        match &account.auth_data {
            AuthData::ApiKey { key } => assert_eq!(key, KEYCHAIN_PLACEHOLDER),
            AuthData::ChatGPT { id_token, access_token, refresh_token, account_id } => {
                assert_eq!(id_token, KEYCHAIN_PLACEHOLDER);
                assert_eq!(access_token, KEYCHAIN_PLACEHOLDER);
                assert_eq!(refresh_token, KEYCHAIN_PLACEHOLDER);
                assert_eq!(account_id.as_deref(), Some("provider-1"));
            }
        }
    }
    let mut reloaded = on_disk.clone();
    let vault: Vec<Option<AuthData>> = store.accounts.iter().map(|a| Some(a.auth_data.clone())).collect();
    let report = reconcile_accounts(&mut reloaded, &vault);
    assert!(!report.changed);
    assert!(report.migrate.is_empty());
    match &reloaded.accounts[0].auth_data {
        AuthData::ApiKey { key } => assert_eq!(key, "sk-real"),
        _ => panic!("wrong kind"),
    }
    match &reloaded.accounts[1].auth_data {
        AuthData::ChatGPT { access_token, .. } => assert_eq!(access_token, "tok-access"),
        _ => panic!("wrong kind"),
    }
}

#[test]
fn reconcile_migrates_legacy_secrets_and_reports_missing_ones() {
    let mut store = AccountsStore {
        accounts: vec![
            api_account("a", "Legacy", "sk-legacy"),
            api_account("b", "Gone", KEYCHAIN_PLACEHOLDER),
            api_account("c", "Vaulted", KEYCHAIN_PLACEHOLDER),
        ],
        active_account_id: Some("b".to_string()),
    };
    let vault = vec![None, None, Some(AuthData::ApiKey { key: "sk-vault".to_string() })];
    let report = reconcile_accounts(&mut store, &vault);
    assert_eq!(report.migrate, vec![0]);
    assert_eq!(report.inaccessible, vec!["Gone".to_string()]);
    assert!(report.changed);
    assert_eq!(store.accounts.len(), 3);
    assert_eq!(store.active_account_id.as_deref(), Some("a"));
    match &store.accounts[2].auth_data {
        AuthData::ApiKey { key } => assert_eq!(key, "sk-vault"),
        _ => panic!("wrong kind"),
    }
}

#[test]
fn reconcile_clears_active_when_nothing_is_accessible() {
    let mut store = AccountsStore {
        accounts: vec![api_account("a", "A", "")],
        active_account_id: Some("a".to_string()),
    };
    let report = reconcile_accounts(&mut store, &[None]);
    assert_eq!(store.active_account_id, None);
    assert!(report.changed);
    assert_eq!(report.inaccessible, vec!["A".to_string()]);
}

#[test]
fn snapshot_names_for_one_second_are_distinct_and_numbered() {
    assert_eq!(build_snapshot_filename(0, 0).unwrap(), "auth-snapshot-19700101T000000Z.json");
    assert_eq!(build_snapshot_filename(0, 12).unwrap(), "auth-snapshot-19700101T000000Z-12.json");
    assert_eq!(
        build_snapshot_filename(1_700_000_000, 3).unwrap(),
        "auth-snapshot-20231114T221320Z-3.json"
    );
    let names: Vec<String> = (0..50).map(|i| build_snapshot_filename(1_700_000_000, i).unwrap()).collect();
    for i in 0..names.len() {
        for j in 0..i {
            assert_ne!(names[i], names[j]);
        }
    }
    assert!(build_snapshot_filename(i64::MAX, 0).is_none());
    assert!(matches!(next_snapshot_step(0, CreateOutcome::AlreadyExists), SnapshotStep::Retry(1)));
    assert!(matches!(next_snapshot_step(7, CreateOutcome::Created), SnapshotStep::Finished));
    assert!(matches!(
        next_snapshot_step(SNAPSHOT_ATTEMPTS - 1, CreateOutcome::AlreadyExists),
        SnapshotStep::Exhausted
    ));
    assert!(matches!(
        next_snapshot_step(2, CreateOutcome::Failed("denied".to_string())),
        SnapshotStep::Abort(ref m) if m == "denied"
    ));
}

#[test]
fn switching_refuses_placeholder_or_empty_credentials() {
    for key in ["", KEYCHAIN_PLACEHOLDER] {
        let account = api_account("a", "A", key);
        let err = switch_to_account(&account, 10).unwrap_err();
        assert_eq!(
            err.message(),
            "Missing stored credentials for account 'A'. Re-add this account to restore access."
        );
    }
    let mut store = empty_store();
    insert_account(&mut store, oauth_account("o", "O", "tok")).unwrap();
    insert_account(&mut store, api_account("p", "P", "")).unwrap();
    let before_active = store.active_account_id.clone();
    assert!(matches!(switch_account(&mut store, "p", 10), Err(AccountError::UnusableCredentials { .. })));
    assert_eq!(store.active_account_id, before_active);
    assert_eq!(store.accounts[1].last_used_at, None);
}

#[test]
fn switching_renders_the_session_file_and_stamps_the_account() {
    let mut store = empty_store();
    insert_account(&mut store, api_account("k", "Key", "sk-live")).unwrap();
    insert_account(&mut store, oauth_account("o", "OAuth", "tok")).unwrap();
    let doc = switch_account(&mut store, "o", 77).unwrap();
    assert_eq!(doc.openai_api_key, None);
    let tokens = doc.tokens.unwrap();
    assert_eq!(tokens.id_token, "tok-id");
    assert_eq!(tokens.account_id.as_deref(), Some("provider-1"));
    assert_eq!(doc.last_refresh, Some(77));
    assert_eq!(store.active_account_id.as_deref(), Some("o"));
    assert_eq!(store.accounts[1].last_used_at, Some(77));

    let doc = switch_account(&mut store, "k", 80).unwrap();
    assert_eq!(doc.openai_api_key.as_deref(), Some("sk-live"));
    assert!(doc.tokens.is_none());
    assert_eq!(doc.last_refresh, None);
}

#[test]
fn summary_of_blank_id_token_is_invalid() {
    let auth = AuthDotJson {
        openai_api_key: None,
        tokens: Some(TokenData {
            id_token: "".to_string(),
            access_token: "x".to_string(),
            refresh_token: "y".to_string(),
            account_id: None,
        }),
        last_refresh: None,
    };
    let summary = build_current_auth_summary(
        SessionRead::Parsed(auth),
        "/h/.codex/auth.json".to_string(),
        "/h/.codex-switcher/snapshots".to_string(),
        Some(5),
    );
    assert_eq!(summary.status, CurrentAuthStatus::Invalid);
    assert_eq!(summary.message.as_deref(), Some("auth.json contains empty token values"));
    assert_eq!(summary.last_modified_at, Some(5));
}

#[test]
fn summary_statuses_for_missing_unreadable_and_key_files() {
    let missing = build_current_auth_summary(SessionRead::Missing, "f".to_string(), "d".to_string(), Some(1));
    assert_eq!(missing.status, CurrentAuthStatus::Missing);
    assert_eq!(missing.last_modified_at, None);
    assert_eq!(missing.message.as_deref(), Some("No active Codex session file was found"));
    let broken = build_current_auth_summary(
        SessionRead::Unparseable("expected value".to_string()),
        "f".to_string(),
        "d".to_string(),
        Some(1),
    );
    assert_eq!(broken.status, CurrentAuthStatus::Error);
    assert_eq!(broken.message.as_deref(), Some("Failed to parse auth.json: expected value"));
    let unreadable =
        build_current_auth_summary(SessionRead::Unreadable("denied".to_string()), "f".to_string(), "d".to_string(), None);
    assert_eq!(unreadable.status, CurrentAuthStatus::Error);
    assert_eq!(unreadable.message.as_deref(), Some("Failed to read auth.json: denied"));
    let blank_key = AuthDotJson { openai_api_key: Some("   ".to_string()), tokens: None, last_refresh: None };
    let s = build_current_auth_summary(SessionRead::Parsed(blank_key), "f".to_string(), "d".to_string(), None);
    assert_eq!(s.status, CurrentAuthStatus::Invalid);
    assert_eq!(s.message.as_deref(), Some("auth.json contains neither API key nor tokens"));
    let key = AuthDotJson { openai_api_key: Some("sk".to_string()), tokens: None, last_refresh: None };
    let s = build_current_auth_summary(SessionRead::Parsed(key), "f".to_string(), "d".to_string(), None);
    assert_eq!(s.status, CurrentAuthStatus::Ready);
    assert_eq!(s.auth_mode, Some(AuthMode::ApiKey));
}

#[test]
fn summary_reads_email_and_plan_from_id_token_claims() {
    // {"email":"me@example.com","https://api.openai.com/auth":{"chatgpt_plan_type":"plus"}}
    let payload = "eyJlbWFpbCI6Im1lQGV4YW1wbGUuY29tIiwiaHR0cHM6Ly9hcGkub3BlbmFpLmNvbS9hdXRoIjp7ImNoYXRncHRfcGxhbl90eXBlIjoicGx1cyJ9fQ";
    let auth = AuthDotJson {
        openai_api_key: None,
        tokens: Some(TokenData {
            id_token: format!("header.{payload}.signature"),
            access_token: "a".to_string(),
            refresh_token: "r".to_string(),
            account_id: None,
        }),
        last_refresh: None,
    };
    let s = build_current_auth_summary(SessionRead::Parsed(auth.clone()), "f".to_string(), "d".to_string(), None);
    assert_eq!(s.status, CurrentAuthStatus::Ready);
    assert_eq!(s.email.as_deref(), Some("me@example.com"));
    assert_eq!(s.plan_type.as_deref(), Some("plus"));

    let imported = import_from_auth_json(auth, "n1".to_string(), 9, "Mine".to_string()).unwrap();
    assert_eq!(imported.auth_mode, AuthMode::ChatGPT);
    assert_eq!(imported.email.as_deref(), Some("me@example.com"));
    assert_eq!(imported.name, "Mine");
    assert_eq!(imported.id, "n1");
}

#[test]
fn claims_are_ignored_for_malformed_tokens() {
    assert_eq!(parse_id_token_claims("a.b"), (None, None));
    assert_eq!(parse_id_token_claims("a.b.c.d"), (None, None));
    assert_eq!(parse_id_token_claims("a.!!!.c"), (None, None));
    // Valid base64 of something that is not JSON.
    assert_eq!(parse_id_token_claims("a.aGVsbG8.c"), (None, None));
}

#[test]
fn import_prefers_api_key_and_refuses_empty_files() {
    let both = AuthDotJson {
        openai_api_key: Some("sk-1".to_string()),
        tokens: Some(TokenData {
            id_token: "i".to_string(),
            access_token: "a".to_string(),
            refresh_token: "r".to_string(),
            account_id: None,
        }),
        last_refresh: None,
    };
    let a = import_from_auth_json(both, "x".to_string(), 0, "Both".to_string()).unwrap();
    assert_eq!(a.auth_mode, AuthMode::ApiKey);
    let none = AuthDotJson { openai_api_key: None, tokens: None, last_refresh: None };
    let err = import_from_auth_json(none, "y".to_string(), 0, "None".to_string()).unwrap_err();
    assert!(matches!(err, AccountError::NoCredentials));
    assert_eq!(err.message(), "auth.json contains neither API key nor tokens");
}

#[test]
fn active_login_needs_a_credential_field() {
    assert!(!has_active_login(&None));
    let empty = AuthDotJson { openai_api_key: None, tokens: None, last_refresh: None };
    assert!(!has_active_login(&Some(empty)));
    let key = AuthDotJson { openai_api_key: Some("k".to_string()), tokens: None, last_refresh: None };
    assert!(has_active_login(&Some(key)));
}

#[test]
fn second_login_cancels_the_first_and_completes_normally() {
    let mut coordinator: LoginCoordinator<u32> = LoginCoordinator::new();
    let first_flag = Arc::new(AtomicBool::new(false));
    let second_flag = Arc::new(AtomicBool::new(false));
    assert!(!coordinator.start_login(1, first_flag.clone(), PendingOAuthMode::CreateAccount));
    assert!(coordinator.start_login(2, second_flag.clone(), PendingOAuthMode::CreateAccount));
    assert!(first_flag.load(Ordering::Relaxed));
    assert!(!second_flag.load(Ordering::Relaxed));
    let pending = coordinator.take_for_completion(false).unwrap();
    assert_eq!(pending.rx, 2);
    assert!(!coordinator.has_pending());
    assert!(matches!(coordinator.take_for_completion(false), Err(LoginError::NoPendingFlow)));
}

#[test]
fn completing_the_wrong_kind_of_flow_fails_and_consumes_it() {
    let mut coordinator: LoginCoordinator<u32> = LoginCoordinator::new();
    let flag = Arc::new(AtomicBool::new(false));
    coordinator.start_login(
        1,
        flag.clone(),
        PendingOAuthMode::ReconnectAccount { account_id: "o".to_string() },
    );
    let err = coordinator.take_for_completion(false).unwrap_err();
    assert!(matches!(err, LoginError::ModeMismatch { expected_reconnect: false }));
    assert_eq!(err.message(), "Pending OAuth flow is not a new account login");
    assert!(!coordinator.has_pending());
    assert!(!coordinator.cancel_login());

    coordinator.start_login(3, flag.clone(), PendingOAuthMode::CreateAccount);
    assert!(coordinator.cancel_login());
    assert!(flag.load(Ordering::Relaxed));
    assert!(!coordinator.has_pending());
}

#[test]
fn reconnect_replaces_tokens_in_place() {
    let mut store = empty_store();
    insert_account(&mut store, api_account("k", "Key", "sk")).unwrap();
    insert_account(&mut store, oauth_account("o", "Work", "old")).unwrap();
    assert!(matches!(reconnect_account_name(&store, "k"), Err(AccountError::NotOAuthAccount { .. })));
    assert!(matches!(reconnect_account_name(&store, "zz"), Err(AccountError::AccountNotFound { .. })));
    assert_eq!(reconnect_account_name(&store, "o").unwrap(), "Work");

    let mut delivered = oauth_account("fresh-id", "Work", "new");
    delivered.email = Some("w@example.com".to_string());
    let (updated, doc) = complete_reconnect(&mut store, "o", delivered, 50).unwrap();
    assert_eq!(updated.id, "o");
    assert_eq!(updated.name, "Work");
    assert_eq!(updated.email.as_deref(), Some("w@example.com"));
    assert_eq!(doc.tokens.unwrap().access_token, "new-access");
    assert_eq!(store.accounts.len(), 2);
    assert_eq!(store.active_account_id.as_deref(), Some("o"));

    let err = complete_reconnect(&mut store, "o", api_account("z", "Z", "sk"), 51).unwrap_err();
    assert_eq!(err.message(), "Unexpected OAuth result for reconnect");

    let before: Vec<String> = store.accounts.iter().map(|a| format!("{:?}", a)).collect();
    let blank = oauth_account("fresh-id", "Work", "");
    let mut blank = blank;
    blank.auth_data = AuthData::ChatGPT {
        id_token: "".to_string(),
        access_token: "a".to_string(),
        refresh_token: "r".to_string(),
        account_id: None,
    };
    let err = complete_reconnect(&mut store, "o", blank, 52).unwrap_err();
    assert!(matches!(err, AccountError::UnusableCredentials { ref name } if name == "Work"));
    let after: Vec<String> = store.accounts.iter().map(|a| format!("{:?}", a)).collect();
    assert_eq!(before, after);
    assert_eq!(updated.last_used_at, Some(50));
}

#[test]
fn placeholder_and_blank_checks() {
    assert!(is_placeholder_value(""));
    assert!(is_placeholder_value("__stored_in_keychain__"));
    assert!(!is_placeholder_value("sk-1"));
    assert!(!has_non_empty_value(None));
    assert!(!has_non_empty_value(Some(" \t ")));
    assert!(has_non_empty_value(Some("  x ")));
    let mut data = AuthData::ApiKey { key: "sk-1".to_string() };
    redact_auth_data(&mut data);
    assert!(matches!(data, AuthData::ApiKey { ref key } if key == "__stored_in_keychain__"));
}

#[test]
fn paths_and_vault_keys() {
    assert_eq!(get_codex_auth_file(Some("/opt/codex".to_string())).unwrap(), "/opt/codex/auth.json");
    assert_eq!(entry_username("a-1"), "account:a-1");
    assert_eq!(interpret_read(VaultOutcome::NoEntry).unwrap(), None);
    assert_eq!(interpret_read(VaultOutcome::Done("s".to_string())).unwrap().as_deref(), Some("s"));
    let err = interpret_read(VaultOutcome::Failed("locked".to_string())).unwrap_err();
    assert_eq!(err.message(), "Failed to read credentials for account: locked");
    assert!(interpret_delete(VaultOutcome::NoEntry).is_ok());
    assert!(interpret_delete(VaultOutcome::Done(())).is_ok());
    assert!(interpret_delete(VaultOutcome::Failed("x".to_string())).is_err());
}

#[test]
fn display_records_and_process_info() {
    let account = api_account("a", "A", "sk");
    let info = AccountInfo::from_stored(&account, Some("a"));
    assert!(info.is_active);
    assert!(!AccountInfo::from_stored(&account, Some("b")).is_active);
    assert!(!AccountInfo::from_stored(&account, None).is_active);
    let none = CodexProcessInfo::from_pids(Vec::new());
    assert!(none.can_switch);
    assert_eq!(none.count, 0);
    let some = CodexProcessInfo::from_pids(vec![10, 11]);
    assert!(!some.can_switch);
    assert_eq!(some.count, 2);
}

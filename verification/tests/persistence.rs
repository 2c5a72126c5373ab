use taicho::error::AppError;
use taicho::persistence::profile_store::{
    default_retries, default_timeout, validate_profile, validate_workspace_id,
};
use taicho::persistence::secret_store::{
    api_key_from_answer, api_key_user, deletion_from_answer, storage_from_answer, KeychainAnswer,
    KEYRING_SERVICE,
};
use taicho::persistence::settings_store::{default_theme, Settings, WindowState};
use taicho::persistence::{ConnectionProfile, ProfileStore};

fn profile(name: &str, url: &str, ws: &str) -> ConnectionProfile {
    let mut p = ConnectionProfile::new(name.to_string(), url.to_string(), ws.to_string(), false);
    p.id = "id".to_string();
    p
}

fn problem(p: &mut ConnectionProfile) -> Option<String> {
    match validate_profile(p) {
        Ok(()) => None,
        Err(AppError::Validation(m)) => Some(m),
        Err(e) => panic!("unexpected error {}", e.user_message()),
    }
}

#[test]
fn new_profile_defaults() {
    let p = ConnectionProfile::new("n".into(), "https://h".into(), "ws".into(), true);
    assert_eq!(p.id.len(), 36);
    for (i, c) in p.id.chars().enumerate() {
        if [8, 13, 18, 23].contains(&i) {
            assert_eq!(c, '-');
        } else {
            assert!(c.is_ascii_digit() || ('a'..='f').contains(&c), "{}", p.id);
        }
    }
    assert_eq!(p.id.chars().nth(14), Some('4'));
    assert!(matches!(p.id.chars().nth(19), Some('8' | '9' | 'a' | 'b')));
    assert_eq!(p.timeout_secs, 120);
    assert_eq!(p.max_retries, 2);
    assert!(p.uses_api_key);
    let q = ConnectionProfile::new("n".into(), "https://h".into(), "ws".into(), true);
    assert_ne!(p.id, q.id);
    assert_eq!(default_timeout(), 120);
    assert_eq!(default_retries(), 2);
    let store = ProfileStore::default();
    assert!(store.profiles.is_empty());
    assert_eq!(store.active_profile_id, None);
}

#[test]
fn validate_profile_trims_and_accepts() {
    let mut p = profile("  Local  ", " http://localhost:8000 ", "\tws_1-a\n");
    assert_eq!(problem(&mut p), None);
    assert_eq!(p.name, "Local");
    assert_eq!(p.base_url, "http://localhost:8000");
    assert_eq!(p.workspace_id, "ws_1-a");
    let before = p.clone();
    assert_eq!(problem(&mut p), None);
    assert_eq!(p, before);
}

#[test]
fn validate_profile_errors_in_order() {
    assert_eq!(
        problem(&mut profile("   ", "ftp://x", "")),
        Some("profile name must not be empty".to_string())
    );
    assert_eq!(
        problem(&mut profile("n", "ftp://x", "")),
        Some("base URL must start with http:// or https://".to_string())
    );
    assert_eq!(
        problem(&mut profile("n", "https://h/?honcho_api_key=1", "")),
        Some("base URL must not contain an API key".to_string())
    );
    assert_eq!(
        problem(&mut profile("n", "https://h/?Api_Key=1", "")),
        Some("base URL must not contain an API key".to_string())
    );
    assert_eq!(
        problem(&mut profile("n", "https://h", "")),
        Some("workspace_id must be 1\u{2013}512 characters".to_string())
    );
    assert_eq!(
        problem(&mut profile("n", "https://h", "bad id")),
        Some("workspace_id must contain only ASCII alphanumeric, underscore, or hyphen".to_string())
    );
    let mut p = profile("n", "https://h", "ws");
    p.timeout_secs = 0;
    assert_eq!(problem(&mut p), Some("timeout must be > 0".to_string()));
}

#[test]
fn workspace_id_length_counts_bytes() {
    assert!(validate_workspace_id(&"a".repeat(512)).is_ok());
    assert!(validate_workspace_id(&"a".repeat(513)).is_err());
    let e = validate_workspace_id(&"\u{e9}".repeat(300)).unwrap_err();
    assert_eq!(e.user_message(), "workspace_id must be 1\u{2013}512 characters");
    let e = validate_workspace_id("\u{e9}").unwrap_err();
    assert_eq!(
        e.user_message(),
        "workspace_id must contain only ASCII alphanumeric, underscore, or hyphen"
    );
}

#[test]
fn api_key_entries() {
    assert_eq!(KEYRING_SERVICE, "dev.taicho");
    assert_eq!(api_key_user("abc"), "abc/api_key");
    assert_ne!(api_key_user("a"), api_key_user("b"));
    assert_eq!(api_key_from_answer(KeychainAnswer::Done("k".to_string())).unwrap(), Some("k".to_string()));
    assert_eq!(api_key_from_answer(KeychainAnswer::NoEntry).unwrap(), None);
    let e = api_key_from_answer(KeychainAnswer::Failed("locked".to_string())).unwrap_err();
    assert_eq!(e.user_message(), "Keychain error: locked");
    assert_eq!(e.code(), "keyring_error");
    assert!(deletion_from_answer(KeychainAnswer::NoEntry).is_ok());
    assert!(deletion_from_answer(KeychainAnswer::Done(())).is_ok());
    assert!(deletion_from_answer(KeychainAnswer::Failed("x".to_string())).is_err());
    assert!(storage_from_answer(KeychainAnswer::Done(())).is_ok());
    assert!(storage_from_answer(KeychainAnswer::Failed("x".to_string())).is_err());
    let missing = storage_from_answer(KeychainAnswer::NoEntry).unwrap_err();
    assert_eq!(missing.user_message(), "Keychain error: No matching credential found");
}

#[test]
fn settings_and_window_state() {
    assert_eq!(default_theme(), "system");
    assert_eq!(Settings::default().theme, "system");
    assert!(WindowState { width: 800, height: 600, x: -5, y: 0 }.is_valid());
    assert!(!WindowState { width: 0, height: 600, x: 0, y: 0 }.is_valid());
    assert!(!WindowState { width: 800, height: 0, x: 0, y: 0 }.is_valid());
}

use taicho::error::{AppError, HonchoFailure};
use taicho::state::connection::ConnectionState;
use taicho::state::selection::{InspectorSection, Selection};
use taicho::state::toast::ToastIds;
use taicho::state::{Toast, ToastKind, ToastStack};

fn some(s: &str) -> Option<String> {
    Some(s.to_string())
}

#[test]
fn selecting_a_peer_clears_the_rest() {
    let mut s = Selection::new(some("p"), some("s"), some("m"), some("c"));
    s.select_peer(some("q"));
    assert_eq!(s, Selection::new(some("q"), None, None, None));
}

#[test]
fn selecting_a_session_keeps_the_peer() {
    let mut s = Selection::new(some("p"), some("s"), some("m"), some("c"));
    s.select_session(some("t"));
    assert_eq!(s, Selection::new(some("p"), some("t"), None, None));
    s.select_message(some("m2"));
    s.select_conclusion(some("c2"));
    assert_eq!(s, Selection::new(some("p"), some("t"), some("m2"), some("c2")));
    s.clear();
    assert_eq!(s, Selection::default());
}

#[test]
fn inspector_sections() {
    assert_eq!(InspectorSection::default(), InspectorSection::Peers);
    let labels: Vec<&str> = InspectorSection::ALL.iter().map(|s| s.label()).collect();
    assert_eq!(labels, vec!["Peers", "Sessions", "Messages", "Conclusions", "Workspaces", "Raw JSON"]);
    assert_eq!(ConnectionState::default(), ConnectionState::Disconnected);
}

#[test]
fn toasts_get_consecutive_ids() {
    let mut ids = ToastIds::new();
    let a = Toast::info(&mut ids, "a".to_string());
    let b = Toast::warning(&mut ids, "b".to_string());
    let c = Toast::error(&mut ids, "c".to_string());
    let d = Toast::new(&mut ids, ToastKind::Info, "d".to_string());
    assert_eq!((a.id, b.id, c.id, d.id), (1, 2, 3, 4));
    assert_eq!((a.kind, b.kind, c.kind), (ToastKind::Info, ToastKind::Warning, ToastKind::Error));
    assert_eq!(c.message, "c");
}

#[test]
fn toast_stack_push_dismiss_clear() {
    let mut st = ToastStack::new();
    st.push_toast(ToastKind::Info, "one".to_string());
    st.push_toast(ToastKind::Error, "two".to_string());
    st.push_toast(ToastKind::Warning, "three".to_string());
    let ids: Vec<u32> = st.toasts().iter().map(|t| t.id).collect();
    assert_eq!(ids, vec![1, 2, 3]);
    st.dismiss_toast(2);
    let msgs: Vec<&str> = st.toasts().iter().map(|t| t.message.as_str()).collect();
    assert_eq!(msgs, vec!["one", "three"]);
    st.dismiss_toast(42);
    assert_eq!(st.toasts().len(), 2);
    st.clear_toasts();
    assert!(st.toasts().is_empty());
    st.push_toast(ToastKind::Info, "four".to_string());
    assert_eq!(st.toasts()[0].id, 4);
}

fn honcho(retryable: bool) -> AppError {
    AppError::Honcho(HonchoFailure {
        message: "rate limited".to_string(),
        code: "rate_limit_exceeded",
        retryable,
        retry_after: Some(std::time::Duration::from_secs(3)),
        detail: "Honcho API error: HTTP 429 rate limited".to_string(),
    })
}

#[test]
fn error_messages_and_codes() {
    let e = honcho(true);
    assert_eq!(e.user_message(), "rate limited");
    assert_eq!(e.code(), "rate_limit_exceeded");
    assert!(e.is_retryable());
    assert_eq!(e.retry_after(), Some(std::time::Duration::from_secs(3)));
    assert_eq!(e.to_string(), "Honcho API error: HTTP 429 rate limited");
    assert!(!honcho(false).is_retryable());

    let cases: Vec<(AppError, &str, &str, &str)> = vec![
        (AppError::NotConnected, "Not connected to Honcho", "not_connected", "not connected"),
        (AppError::channel_closed("list"), "Request was canceled", "channel_closed", "channel closed during list"),
        (AppError::Validation("v".to_string()), "v", "validation_error", "v"),
        (AppError::Keyring("k".to_string()), "Keychain error: k", "keyring_error", "k"),
        (AppError::Io("i".to_string()), "I/O error: i", "io_error", "i"),
        (AppError::Json("j".to_string()), "JSON error: j", "json_error", "j"),
    ];
    for (e, msg, code, desc) in cases {
        assert_eq!(e.user_message(), msg);
        assert_eq!(e.code(), code);
        assert_eq!(e.to_string(), desc);
        assert!(!e.is_retryable());
        assert_eq!(e.retry_after(), None);
    }
}

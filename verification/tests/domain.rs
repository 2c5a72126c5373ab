use taicho::domain::page::empty_page_info;
use taicho::domain::session::summaries_if_any;
use taicho::domain::{
    DomainPage, PageInfo, PeerContextView, QueueStatus, SessionSummariesView, SummaryKind,
    SummaryView, WorkspaceInfo,
};

#[test]
fn peer_context_view_default_empty() {
    let view = PeerContextView {
        peer_id: String::new(),
        target_id: None,
        representation: None,
        peer_card: None,
    };
    assert_eq!(view.peer_id, "");
    assert_eq!(view.target_id, None);
    assert_eq!(view.representation, None);
    assert_eq!(view.peer_card, None);
}

#[test]
fn queue_status_default_is_empty() {
    let s = QueueStatus::default();
    assert_eq!(s.total(), 0);
    assert!(s.is_empty());
}

#[test]
fn queue_status_total_sums_all_buckets() {
    let s = QueueStatus {
        pending: 2,
        running: 1,
        completed: 5,
        sessions: 3,
        last_updated: None,
    };
    assert_eq!(s.total(), 8);
    assert!(!s.is_empty());
}

#[test]
fn queue_status_ignores_sessions_when_empty() {
    let s = QueueStatus { pending: 0, running: 0, completed: 0, sessions: 9, last_updated: Some(1) };
    assert!(s.is_empty());
}

#[test]
fn empty_page_has_defaults() {
    let p: DomainPage<String> = DomainPage::empty();
    assert!(p.is_empty());
    assert_eq!(
        p.info,
        PageInfo { page: 1, size: 50, total: 0, pages: 0, has_next: false }
    );
    let full = DomainPage { items: vec![1u8], info: p.info.clone() };
    assert!(!full.is_empty());
    let _ = empty_page_info;
}

#[test]
fn summary_kind_names() {
    assert_eq!(SummaryKind::from_str_lossy("short"), SummaryKind::Short);
    assert_eq!(SummaryKind::from_str_lossy("long"), SummaryKind::Long);
    assert_eq!(SummaryKind::from_str_lossy("Short"), SummaryKind::Unknown);
    assert_eq!(SummaryKind::from_str_lossy(""), SummaryKind::Unknown);
    assert_eq!(SummaryKind::Short.as_str(), "short");
    assert_eq!(SummaryKind::Long.as_str(), "long");
    assert_eq!(SummaryKind::Unknown.as_str(), "unknown");
    for k in [SummaryKind::Short, SummaryKind::Long, SummaryKind::Unknown] {
        assert_eq!(SummaryKind::from_str_lossy(k.as_str()), k);
    }
}

fn summary(kind: SummaryKind) -> SummaryView {
    SummaryView {
        content: "c".to_string(),
        message_id: "m".to_string(),
        summary_type: kind,
        created_at: "t".to_string(),
        token_count: 3,
    }
}

#[test]
fn summaries_only_when_present() {
    let none = SessionSummariesView { id: "s".to_string(), short_summary: None, long_summary: None };
    assert_eq!(summaries_if_any(none), None);
    let some = SessionSummariesView {
        id: "s".to_string(),
        short_summary: None,
        long_summary: Some(summary(SummaryKind::Long)),
    };
    assert_eq!(summaries_if_any(some.clone()), Some(some));
}

fn context(repr: Option<&str>, card: Option<Vec<&str>>) -> PeerContextView {
    PeerContextView {
        peer_id: "p1".into(),
        target_id: None,
        representation: repr.map(|r| r.to_string()),
        peer_card: card.map(|c| c.into_iter().map(|s| s.to_string()).collect()),
    }
}

#[test]
fn system_content_joins_representation_and_card() {
    let v = context(Some("I am a helpful assistant."), Some(vec!["friendly", "concise"]));
    assert_eq!(
        v.build_system_content(),
        "I am a helpful assistant.\n\nPeer card: [friendly, concise]"
    );
    assert_eq!(context(Some("only"), None).build_system_content(), "only");
    assert_eq!(context(None, Some(vec![])).build_system_content(), "Peer card: []");
    assert_eq!(context(None, Some(vec!["a"])).build_system_content(), "Peer card: [a]");
    assert_eq!(context(None, None).build_system_content(), "");
    assert_eq!(context(Some(""), None).build_system_content(), "");
}

#[test]
fn workspace_info_fields() {
    let w = WorkspaceInfo { id: "ws".to_string(), base_url: "https://h".to_string() };
    assert_eq!(w.clone(), w);
}

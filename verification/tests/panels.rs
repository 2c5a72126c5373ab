use taicho::domain::page::{DomainPage, PageInfo};
use taicho::domain::{ChatMessage, ChatRole, QueueStatus, SearchScope, WorkspaceInfo};
use taicho::error::{AppError, HonchoFailure};
use taicho::numeric::{decimal, parse_u32};
use taicho::state::connection::ConnectionState;
use taicho::state::toast::ToastKind;
use taicho::ui::actions::{
    after_workspace_deleted, back_to_connection, conclusion_pair_ready, conclusion_prompt_shown,
    conclusion_search_ready,
    can_confirm_delete, can_delete_workspace, delete_failure, disconnect_status, dream_result,
    metadata_save_notice, session_clone_status, session_delete_status, top_k_problem,
    DisconnectReply, DreamResult,
};
use taicho::ui::chat::{can_send, on_answer, submit, target_from_input, ChatRequest, StreamCollector};
use taicho::ui::connection::{connect_outcome, prepare_connect, ConnectStep};
use taicho::ui::feed::{FeedStatus, FeedView, MessageFeed};
use taicho::ui::forms::{optional_count, optional_text, repr_fields};
use taicho::ui::logs::{newest_log, LogFile};
use taicho::ui::json::editor_outcome;
use taicho::ui::markdown::render_markdown;
use taicho::state::selection::InspectorSection;
use taicho::state::toast::ToastIds;
use taicho::ui::search::{
    parse_limit, plan_search, scope_choice, scope_id_placeholder, search_outcome, ScopeChoice,
    SearchOutcome, SearchStep,
};
use taicho::ui::shortcuts::{prevents_default, shortcut_for, KeyPress, Shortcut};
use taicho::ui::upload::{
    progress_label, UploadOutcome, UploadPanelState, UploadRun, UploadStep, UploadView,
};
use taicho::ui::views::{error_info, page_view, queue_view, rows_view, ViewState};

fn service_error(retryable: bool) -> AppError {
    AppError::Honcho(HonchoFailure {
        message: "service unavailable".to_string(),
        code: "server_error",
        retryable,
        retry_after: None,
        detail: "HTTP 503".to_string(),
    })
}

fn page_of(items: Vec<u32>, page: u64, has_next: bool) -> DomainPage<u32> {
    let n = items.len() as u64;
    DomainPage {
        items,
        info: PageInfo { page, size: 50, total: n, pages: 1, has_next },
    }
}

#[test]
fn decimal_writes_numbers() {
    assert_eq!(decimal(0), "0");
    assert_eq!(decimal(7), "7");
    assert_eq!(decimal(10), "10");
    assert_eq!(decimal(1203), "1203");
    assert_eq!(decimal(u64::MAX), u64::MAX.to_string());
}

#[test]
fn parse_u32_follows_from_str() {
    for text in ["25", "+7", "", "+", "-1", "-0", "4294967295", "4294967296", "12a", " 5", "007", "99999999999", "٣"] {
        assert_eq!(parse_u32(text), text.parse::<u32>().ok(), "{text:?}");
    }
}

#[test]
fn written_numbers_read_back() {
    for n in [0u32, 9, 10, 25, 1203, u32::MAX] {
        assert_eq!(parse_u32(&decimal(n as u64)), Some(n));
    }
}

#[test]
fn search_limit_field() {
    assert_eq!(parse_limit("40"), 40);
    assert_eq!(parse_limit(""), 25);
    assert_eq!(parse_limit("ten"), 25);
    assert_eq!(parse_limit(" 40"), 25);
}

#[test]
fn search_scope_selector() {
    assert_eq!(scope_choice("workspace"), ScopeChoice::Workspace);
    assert_eq!(scope_choice("peer"), ScopeChoice::Peer);
    assert_eq!(scope_choice("session"), ScopeChoice::Session);
    assert_eq!(scope_choice("other"), ScopeChoice::Workspace);
    assert_eq!(scope_id_placeholder(ScopeChoice::Peer), "Peer ID");
    assert_eq!(scope_id_placeholder(ScopeChoice::Session), "Session ID");
    assert_eq!(scope_id_placeholder(ScopeChoice::Workspace), "");
}

#[test]
fn search_form_submission() {
    assert_eq!(plan_search("   ", ScopeChoice::Workspace, "", 25), SearchStep::Skip);
    assert_eq!(
        plan_search(" hello ", ScopeChoice::Workspace, "", 10),
        SearchStep::Send { scope: SearchScope::Workspace, query: " hello ".to_string(), limit: 10 }
    );
    assert_eq!(
        plan_search("hello", ScopeChoice::Peer, "", 25),
        SearchStep::Refuse("Peer ID required for peer scope".to_string())
    );
    assert_eq!(
        plan_search("hello", ScopeChoice::Session, "", 25),
        SearchStep::Refuse("Session ID required for session scope".to_string())
    );
    assert_eq!(
        plan_search("hello", ScopeChoice::Session, "s1", 5),
        SearchStep::Send {
            scope: SearchScope::Session("s1".to_string()),
            query: "hello".to_string(),
            limit: 5
        }
    );
    assert_eq!(
        plan_search("hello", ScopeChoice::Peer, "alice", 5),
        SearchStep::Send { scope: SearchScope::Peer("alice".to_string()), query: "hello".to_string(), limit: 5 }
    );
}

#[test]
fn search_answers() {
    assert!(matches!(search_outcome::<u32>(Some(Ok(vec![]))), SearchOutcome::Empty));
    assert!(matches!(search_outcome(Some(Ok(vec![1u32, 2]))), SearchOutcome::Loaded(v) if v == vec![1, 2]));
    match search_outcome::<u32>(None) {
        SearchOutcome::Failed { message, retryable } => {
            assert_eq!(message, "Search cancelled");
            assert!(!retryable);
        }
        _ => panic!("expected a failure"),
    }
    match search_outcome::<u32>(Some(Err(service_error(true)))) {
        SearchOutcome::Failed { message, retryable } => {
            assert_eq!(message, "service unavailable");
            assert!(retryable);
        }
        _ => panic!("expected a failure"),
    }
}

#[test]
fn keyboard_shortcuts() {
    let k = KeyPress::Character("k".to_string());
    let big_k = KeyPress::Character("K".to_string());
    assert_eq!(shortcut_for(&k, true, false, false), Some(Shortcut::ToggleSearch));
    assert_eq!(shortcut_for(&big_k, true, false, true), Some(Shortcut::ToggleSearch));
    assert_eq!(shortcut_for(&k, false, false, false), None);
    assert_eq!(shortcut_for(&k, true, true, false), None);
    assert_eq!(
        shortcut_for(&KeyPress::Character("r".to_string()), true, false, false),
        Some(Shortcut::Refresh)
    );
    assert_eq!(
        shortcut_for(&KeyPress::Character("D".to_string()), true, true, false),
        Some(Shortcut::Disconnect)
    );
    assert_eq!(shortcut_for(&KeyPress::Character("d".to_string()), true, false, false), None);
    assert_eq!(shortcut_for(&KeyPress::Character("kk".to_string()), true, false, false), None);
    assert_eq!(shortcut_for(&KeyPress::Escape, false, false, true), Some(Shortcut::CloseSearch));
    assert_eq!(shortcut_for(&KeyPress::Escape, false, false, false), None);
    assert_eq!(shortcut_for(&KeyPress::Other, true, false, true), None);
    assert!(prevents_default(Shortcut::Refresh));
    assert!(!prevents_default(Shortcut::CloseSearch));
}

#[test]
fn upload_needs_selection() {
    let mut panel = UploadPanelState::new();
    panel.add_files(vec!["/tmp/a.txt".to_string()]);
    assert!(panel.begin(None, Some("p".to_string())).is_none());
    assert_eq!(panel.outcome, UploadOutcome::Error);
    assert_eq!(panel.last_error.as_deref(), Some("Select a session first."));
    assert_eq!(panel.view(false, true), UploadView::Failed("Select a session first.".to_string()));
    assert!(panel.begin(Some("s".to_string()), None).is_none());
    assert_eq!(panel.last_error.as_deref(), Some("Select a peer first."));
    panel.clear_files();
    assert_eq!(panel.outcome, UploadOutcome::Idle);
    assert!(panel.begin(Some("s".to_string()), Some("p".to_string())).is_none());
    assert!(!panel.is_uploading);
    assert_eq!(panel.view(true, true), UploadView::NoFiles { success: false });
    assert_eq!(panel.view(false, true), UploadView::NothingSelected);
}

#[test]
fn upload_run_all_succeed() {
    let mut panel = UploadPanelState::new();
    panel.add_files(vec!["a".to_string(), "b".to_string()]);
    let job = panel.begin(Some("s".to_string()), Some("p".to_string())).expect("a job");
    assert_eq!(job.paths, vec!["a".to_string(), "b".to_string()]);
    assert_eq!(panel.view(true, true), UploadView::Uploading { done: 0, total: 2 });
    assert_eq!(progress_label(panel.done, panel.total), "Uploading 0/2...");
    let mut run = UploadRun::new(job.paths.clone());
    let mut sent = Vec::new();
    loop {
        match run.step() {
            UploadStep::Send { index, path } => {
                sent.push(path.clone());
                panel.file_uploaded(index, &path);
                run.on_reply(None);
            }
            UploadStep::Finished { uploaded, failure } => {
                let (kind, text) = panel.finish(uploaded, failure);
                assert_eq!(kind, ToastKind::Info);
                assert_eq!(text, "Uploaded 2 file(s)");
                break;
            }
        }
    }
    assert_eq!(sent, vec!["a".to_string(), "b".to_string()]);
    assert!(panel.files.is_empty());
    assert_eq!(panel.outcome, UploadOutcome::Done);
    assert_eq!(panel.view(true, true), UploadView::NoFiles { success: true });
}

#[test]
fn upload_run_stops_at_first_failure() {
    let mut panel = UploadPanelState::new();
    panel.add_files(vec!["a".to_string(), "b".to_string(), "c".to_string()]);
    let job = panel.begin(Some("s".to_string()), Some("p".to_string())).expect("a job");
    let mut run = UploadRun::new(job.paths);
    let mut sent = 0;
    loop {
        match run.step() {
            UploadStep::Send { index, path } => {
                sent += 1;
                if path == "b" {
                    run.on_reply(Some("too large".to_string()));
                } else {
                    panel.file_uploaded(index, &path);
                    run.on_reply(None);
                }
            }
            UploadStep::Finished { uploaded, failure } => {
                assert_eq!(uploaded, 1);
                let (kind, text) = panel.finish(uploaded, failure);
                assert_eq!(kind, ToastKind::Error);
                assert_eq!(text, "Upload failed: too large");
                break;
            }
        }
    }
    assert_eq!(sent, 2);
    assert_eq!(panel.files, vec!["b".to_string(), "c".to_string()]);
    assert_eq!(panel.done, 1);
    assert_eq!(panel.view(true, true), UploadView::Failed("too large".to_string()));
}

fn user(content: &str) -> ChatMessage {
    ChatMessage {
        peer_id: "alice".to_string(),
        content: content.to_string(),
        role: ChatRole::User,
        created_at: "t0".to_string(),
        token_count: 0,
    }
}

#[test]
fn chat_send_rules() {
    assert!(can_send("hi", false));
    assert!(!can_send("  ", false));
    assert!(!can_send("hi", true));
    assert_eq!(target_from_input(""), None);
    assert_eq!(target_from_input(" bob"), Some(" bob".to_string()));
    let mut history = Vec::new();
    assert!(submit(&mut history, "  ", false, "alice", None, false, "t0".to_string()).is_none());
    assert!(history.is_empty());
    match submit(&mut history, "hello", false, "alice", Some("bob".to_string()), true, "t1".to_string()) {
        Some(ChatRequest::Ask { query, opts }) => {
            assert_eq!(query, "hello");
            assert_eq!(opts.peer_target.as_deref(), Some("bob"));
            assert!(opts.session_id.is_none());
        }
        _ => panic!("expected a whole answer"),
    }
    assert_eq!(history.len(), 1);
    assert_eq!(history[0].role, ChatRole::User);
    assert_eq!(history[0].content, "hello");
    assert_eq!(history[0].created_at, "t1");
    assert!(matches!(
        submit(&mut history, "again", false, "alice", None, false, "t2".to_string()),
        Some(ChatRequest::Stream { .. })
    ));
}

#[test]
fn chat_whole_answers() {
    let mut history = vec![user("q")];
    assert_eq!(on_answer(&mut history, Some(Ok(Some("a".to_string()))), "alice", "t1".to_string()), None);
    assert_eq!(history.len(), 2);
    assert_eq!(history[1].role, ChatRole::Assistant);
    assert_eq!(history[1].content, "a");
    assert_eq!(on_answer(&mut history, Some(Ok(None)), "alice", "t2".to_string()), None);
    assert_eq!(history.len(), 2);
    assert_eq!(
        on_answer(&mut history, Some(Err(service_error(false))), "alice", "t3".to_string()),
        Some("service unavailable".to_string())
    );
    assert_eq!(
        on_answer(&mut history, None, "alice", "t3".to_string()),
        Some("Chat reply channel closed".to_string())
    );
    assert_eq!(history.len(), 2);
}

#[test]
fn chat_streamed_answer_collects_pieces() {
    let mut history = vec![user("q")];
    let mut collector = StreamCollector::new(&history);
    collector.on_chunk(&mut history, "Hel", "alice", "t1".to_string());
    collector.on_chunk(&mut history, "lo", "alice", "t2".to_string());
    assert_eq!(history.len(), 2);
    assert_eq!(history[1].role, ChatRole::Assistant);
    assert_eq!(history[1].content, "Hello");
    assert_eq!(history[1].created_at, "t1");
    collector.on_done(&mut history, String::new());
    assert_eq!(history[1].content, "Hello");
    collector.on_done(&mut history, "Hello!".to_string());
    assert_eq!(history[1].content, "Hello!");
    assert_eq!(history[0].content, "q");
}

#[test]
fn connect_form_checks() {
    match prepare_connect("ftp://x", "default", "", false) {
        ConnectStep::Refuse(m) => assert_eq!(m, "Base URL must start with http:// or https://"),
        _ => panic!("expected a refusal"),
    }
    match prepare_connect("  http://localhost:8000 ", " my ws ", "", false) {
        ConnectStep::Refuse(m) => assert_eq!(
            m,
            "workspace_id must contain only ASCII alphanumeric, underscore, or hyphen"
        ),
        _ => panic!("expected a refusal"),
    }
    match prepare_connect("http://h?api_key=1", "ws", "", false) {
        ConnectStep::Refuse(m) => assert_eq!(m, "base URL must not contain an API key"),
        _ => panic!("expected a refusal"),
    }
    match prepare_connect(" https://api.honcho.dev ", " ws-1 ", "  sk  ", true) {
        ConnectStep::Connect { profile, api_key } => {
            assert_eq!(profile.name, "Default");
            assert_eq!(profile.base_url, "https://api.honcho.dev");
            assert_eq!(profile.workspace_id, "ws-1");
            assert!(profile.uses_api_key);
            assert_eq!(profile.id.len(), 36);
            assert_eq!(api_key.as_deref(), Some("sk"));
        }
        _ => panic!("expected a connection"),
    }
    match prepare_connect("http://h", "ws", "   ", true) {
        ConnectStep::Connect { api_key, .. } => assert_eq!(api_key, None),
        _ => panic!("expected a connection"),
    }
    match prepare_connect("http://h", "ws", "sk", false) {
        ConnectStep::Connect { api_key, .. } => assert_eq!(api_key, None),
        _ => panic!("expected a connection"),
    }
}

#[test]
fn connect_answers() {
    let info = WorkspaceInfo { id: "ws".to_string(), base_url: "http://h".to_string() };
    let (state, status, reached) = connect_outcome(Some(Ok(info.clone())));
    assert_eq!(state, ConnectionState::Connected);
    assert_eq!(status, "Connected to http://h");
    assert_eq!(reached, Some(info));
    let (state, status, reached) = connect_outcome(Some(Err(service_error(true))));
    assert_eq!(
        state,
        ConnectionState::Failed {
            code: "server_error".to_string(),
            message: "service unavailable".to_string(),
            retryable: true
        }
    );
    assert_eq!(status, "Error: service unavailable");
    assert_eq!(reached, None);
    let (state, status, _) = connect_outcome(None);
    assert_eq!(
        state,
        ConnectionState::Failed {
            code: "channel_closed".to_string(),
            message: "Request was canceled".to_string(),
            retryable: false
        }
    );
    assert_eq!(status, "Error: Request was canceled");
}

#[test]
fn action_reports() {
    assert_eq!(delete_failure(Some(Ok(()))), None);
    assert_eq!(
        delete_failure(Some(Err(AppError::NotConnected))),
        Some("Delete failed: Not connected to Honcho".to_string())
    );
    assert_eq!(delete_failure(None), Some("Delete failed: channel closed".to_string()));
    assert_eq!(session_delete_status(Some(Ok(()))), "Session deleted");
    assert_eq!(session_delete_status(None), "Delete cancelled (channel closed)");
    assert_eq!(session_clone_status(Some(Ok("s2".to_string()))), "Session cloned \u{2192} s2");
    assert_eq!(
        session_clone_status(Some(Err(service_error(false)))),
        "Clone failed: service unavailable"
    );
    assert_eq!(session_clone_status(None), "Clone cancelled (channel closed)");
    assert_eq!(disconnect_status(DisconnectReply::Done), "Disconnected");
    assert_eq!(disconnect_status(DisconnectReply::Dropped), "Disconnected");
    assert_eq!(disconnect_status(DisconnectReply::TimedOut), "Disconnected (timeout)");
    assert_eq!(
        disconnect_status(DisconnectReply::Failed(AppError::NotConnected)),
        "Disconnected (Not connected to Honcho)"
    );
    let (kind, text, saved) = metadata_save_notice(Some(Ok(5u8)));
    assert_eq!((kind, text.as_str(), saved), (ToastKind::Info, "Metadata saved", Some(5)));
    let (kind, text, saved) = metadata_save_notice::<u8>(Some(Err(service_error(false))));
    assert_eq!((kind, text.as_str(), saved), (ToastKind::Error, "Save failed: service unavailable", None));
    let (kind, text, _) = metadata_save_notice::<u8>(None);
    assert_eq!((kind, text.as_str()), (ToastKind::Warning, "Save cancelled"));
    assert_eq!(dream_result(false, Some(Ok(()))), DreamResult::Ignore);
    assert_eq!(dream_result(true, Some(Ok(()))), DreamResult::Scheduled);
    assert_eq!(dream_result(true, None), DreamResult::Failed("Channel closed".to_string()));
    assert_eq!(top_k_problem(10), None);
    assert_eq!(top_k_problem(0), Some("top_k must be between 1 and 100, got 0".to_string()));
    assert_eq!(top_k_problem(101), Some("top_k must be between 1 and 100, got 101".to_string()));
    assert!(can_confirm_delete("c1", "c1", false));
    assert!(!can_confirm_delete("c1", "c1", true));
    assert!(!can_confirm_delete("c", "c1", false));
    let info = Some(WorkspaceInfo { id: "ws".to_string(), base_url: "http://h".to_string() });
    assert!(can_delete_workspace("ws", &info));
    assert!(!can_delete_workspace("w", &info));
    assert!(!can_delete_workspace("ws", &None));
}

#[test]
fn message_feed_pages() {
    let mut feed: MessageFeed<u32> = MessageFeed::new();
    assert_eq!(feed.view(), FeedView::Loading);
    feed.start_fetch(false);
    assert_eq!(feed.status, FeedStatus::Loading);
    feed.on_page(Ok(page_of(vec![1, 2], 1, true)), false);
    assert_eq!(feed.view(), FeedView::Items);
    assert_eq!(feed.next_page(true), Some(2));
    assert_eq!(feed.next_page(false), None);
    feed.start_fetch(true);
    assert_eq!(feed.next_page(true), None);
    feed.on_page(Ok(page_of(vec![3], 2, false)), true);
    assert_eq!(feed.items, vec![1, 2, 3]);
    assert_eq!(feed.page, 2);
    assert_eq!(feed.next_page(true), None);
    feed.start_fetch(true);
    feed.on_page(Err(service_error(true)), true);
    assert_eq!(feed.items, vec![1, 2, 3]);
    assert_eq!(feed.status, FeedStatus::Loaded);
    feed.restart();
    feed.start_fetch(false);
    feed.on_page(Err(service_error(true)), false);
    match feed.view() {
        FeedView::Failed(info) => {
            assert_eq!(info.code, "server_error");
            assert!(info.retryable);
        }
        other => panic!("unexpected {other:?}"),
    }
    feed.start_fetch(false);
    feed.on_page(Ok(page_of(vec![], 1, false)), false);
    assert_eq!(feed.view(), FeedView::Empty);
    feed.status = FeedStatus::Error;
    feed.error = None;
    match feed.view() {
        FeedView::Failed(info) => {
            assert_eq!(info.code, "unknown_error");
            assert_eq!(info.message, "An unknown error occurred.");
        }
        other => panic!("unexpected {other:?}"),
    }
}

#[test]
fn representation_form_fields() {
    assert_eq!(optional_text("  hobbies "), Some("hobbies".to_string()));
    assert_eq!(optional_text("   "), None);
    assert_eq!(optional_count(" 12 "), Some(12));
    assert_eq!(optional_count("x"), None);
    let f = repr_fields(" q ", "5", true, "");
    assert_eq!(f.search_query.as_deref(), Some("q"));
    assert_eq!(f.search_top_k, Some(5));
    assert_eq!(f.include_most_frequent, Some(true));
    assert_eq!(f.max_conclusions, None);
    assert_eq!(repr_fields("", "", false, "9").include_most_frequent, None);
}

#[test]
fn request_views() {
    assert!(matches!(page_view(Ok(page_of(vec![], 1, false))), ViewState::Empty));
    assert!(matches!(page_view(Ok(page_of(vec![4], 1, false))), ViewState::Ready(p) if p.items == vec![4]));
    match page_view::<u32>(Err(AppError::NotConnected)) {
        ViewState::Failed(info) => {
            assert_eq!(info.code, "not_connected");
            assert_eq!(info.message, "Not connected to Honcho");
            assert!(!info.retryable);
        }
        _ => panic!("expected a failure"),
    }
    assert!(matches!(rows_view::<u32>(Ok(vec![])), ViewState::Empty));
    let idle = QueueStatus { pending: 0, running: 0, completed: 0, sessions: 3, last_updated: None };
    assert!(matches!(queue_view(Ok(idle)), ViewState::Empty));
    let busy = QueueStatus { pending: 1, running: 0, completed: 0, sessions: 0, last_updated: None };
    assert!(matches!(queue_view(Ok(busy)), ViewState::Ready(_)));
    assert_eq!(error_info(&service_error(true)).code, "server_error");
}

#[test]
fn newest_log_file() {
    let f = |name: &str, t: Option<u128>| LogFile { name: Some(name.to_string()), modified: t };
    let files = vec![
        f("other.txt", Some(99)),
        f("taicho.log.2024-01-01", Some(5)),
        f("taicho.log", Some(7)),
        f("taicho.log.2024-01-02", Some(7)),
        LogFile { name: None, modified: Some(100) },
    ];
    assert_eq!(newest_log(&files), Some(2));
    assert_eq!(newest_log(&vec![f("taicho.log", None), f("taicho.log.1", Some(1))]), Some(1));
    assert_eq!(newest_log(&vec![f("taicho.log", None)]), Some(0));
    assert_eq!(newest_log(&vec![f("app.log", Some(1))]), None);
}

#[test]
fn markdown_is_rendered_and_sanitized() {
    assert_eq!(render_markdown("**bold**"), "<p><strong>bold</strong></p>\n");
    let html = render_markdown("hi <script>alert(1)</script>");
    assert!(!html.contains("<script>"));
    let link = render_markdown("[x](javascript:alert(1))");
    assert!(!link.contains("javascript:"));
    let mail = render_markdown("[m](mailto:a@b.c)");
    assert!(mail.contains("mailto:a@b.c"));
}

#[test]
fn json_editor_accepts_only_objects() {
    let map = editor_outcome("{\"a\": 1, \"b\": [true]}").expect("an object");
    assert_eq!(map.len(), 2);
    assert_eq!(map["a"], serde_json::Value::from(1));
    assert!(editor_outcome("  {}  ").expect("an object").is_empty());
    assert_eq!(
        editor_outcome("[1, 2]").unwrap_err(),
        "Expected a JSON object (key-value pairs)"
    );
    assert_eq!(editor_outcome("42").unwrap_err(), "Expected a JSON object (key-value pairs)");
    let bad = "{\"a\": }";
    let expected = format!("Invalid JSON: {}", serde_json::from_str::<serde_json::Value>(bad).unwrap_err());
    assert_eq!(editor_outcome(bad).unwrap_err(), expected);
    assert!(editor_outcome("").unwrap_err().starts_with("Invalid JSON: "));
}

#[test]
fn window_resets() {
    let r = back_to_connection("Disconnected (timeout)".to_string());
    assert_eq!(r.connection, ConnectionState::Disconnected);
    assert!(r.workspace.is_none());
    assert!(r.selection.peer_id.is_none() && r.selection.session_id.is_none());
    assert!(r.selection.message_id.is_none() && r.selection.conclusion_id.is_none());
    assert_eq!(r.section, InspectorSection::Peers);
    assert_eq!(r.status, "Disconnected (timeout)");
    assert_eq!(after_workspace_deleted().status, "Workspace deleted");
}

#[test]
fn conclusion_list_guards() {
    assert!(conclusion_pair_ready("a", "b"));
    assert!(!conclusion_pair_ready("a", ""));
    assert!(conclusion_search_ready("q", "a", "b"));
    assert!(!conclusion_search_ready("", "a", "b"));
    assert!(conclusion_prompt_shown("", "", false));
    assert!(!conclusion_prompt_shown("", "", true));
    assert!(!conclusion_prompt_shown("a", "", false));
}

#[test]
fn toast_ids_count_up_from_one() {
    let mut ids = ToastIds::new();
    let got: Vec<u32> = (0..5).map(|_| ids.take()).collect();
    assert_eq!(got, vec![1, 2, 3, 4, 5]);
}

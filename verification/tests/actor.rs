use taicho::actor::decisions::{
    clamp_to_u32, conclusion_scope, creation_scope, dream_target, effective_api_key,
    first_returned, search_limit, ConclusionScope,
};
use taicho::actor::protocol::{already_connected_error, route, unexpected_command_error};
use taicho::actor::stream::{RelayAction, StreamItem, StreamRelay};
use taicho::actor::{ActorAction, ActorEvent, ActorState, ChatOpts, CmdKind, Handler};

#[test]
fn routing_of_commands() {
    assert_eq!(route(CmdKind::Refresh), Handler::Refresh);
    assert_eq!(route(CmdKind::StreamChat), Handler::Peer);
    assert_eq!(route(CmdKind::GetSessionContext), Handler::Session);
    assert_eq!(route(CmdKind::SetSessionPeerConfig), Handler::SessionPeer);
    assert_eq!(route(CmdKind::UpdateMessageMetadata), Handler::Message);
    assert_eq!(route(CmdKind::Search), Handler::Workspace);
    assert_eq!(route(CmdKind::ScheduleDream), Handler::Workspace);
    assert_eq!(route(CmdKind::GetConclusionRepresentation), Handler::Conclusion);
    assert_eq!(route(CmdKind::UploadFileToMultiplePeers), Handler::Upload);
    assert_eq!(route(CmdKind::Connect), Handler::Unexpected);
    assert_eq!(route(CmdKind::Disconnect), Handler::Unexpected);
}

#[test]
fn actor_connection_state_machine() {
    let mut st = ActorState::new();
    assert_eq!(st.decide(CmdKind::ListPeers), ActorAction::ReplyNotConnected);
    assert_eq!(st.decide(CmdKind::Connect), ActorAction::Connect);
    st.on_event(ActorEvent::Connected { reply_delivered: false });
    assert!(!st.connected);
    st.on_event(ActorEvent::ConnectFailed);
    assert!(!st.connected);
    st.on_event(ActorEvent::Connected { reply_delivered: true });
    assert!(st.connected);
    assert_eq!(st.decide(CmdKind::Connect), ActorAction::RefuseAlreadyConnected);
    assert_eq!(st.decide(CmdKind::ListPeers), ActorAction::Dispatch(Handler::Peer));
    assert_eq!(st.decide(CmdKind::Disconnect), ActorAction::Disconnect);
    st.on_event(ActorEvent::Disconnected);
    assert!(!st.connected);
    assert_eq!(
        already_connected_error().user_message(),
        "already connected \u{2014} disconnect first"
    );
    assert_eq!(unexpected_command_error().user_message(), "unexpected command in dispatch");
}

#[test]
fn stream_relay_sends_done_only_without_error() {
    let mut r = StreamRelay::new();
    assert_eq!(r.on_item(StreamItem::Text), RelayAction::SendChunk);
    r.on_delivery(true);
    assert!(!r.closed);
    assert_eq!(r.on_item(StreamItem::Error), RelayAction::SendError);
    assert!(r.closed);

    let mut r = StreamRelay::new();
    assert_eq!(r.on_item(StreamItem::Exhausted), RelayAction::SendDone);
    assert!(r.closed);

    let mut r = StreamRelay::new();
    assert_eq!(r.on_item(StreamItem::Text), RelayAction::SendChunk);
    r.on_delivery(false);
    assert!(r.closed);
}

#[test]
fn conclusion_scopes() {
    assert_eq!(conclusion_scope("a", "a"), ConclusionScope::Own);
    assert_eq!(conclusion_scope("a", "b"), ConclusionScope::Of("b".to_string()));
    assert_eq!(creation_scope("a", None), ConclusionScope::Own);
    assert_eq!(creation_scope("a", Some("a")), ConclusionScope::Own);
    assert_eq!(creation_scope("a", Some("b")), ConclusionScope::Of("b".to_string()));
}

#[test]
fn small_decisions() {
    assert_eq!(clamp_to_u32(7), 7);
    assert_eq!(clamp_to_u32(u64::MAX), u32::MAX);
    assert_eq!(clamp_to_u32(u32::MAX as u64 + 1), u32::MAX);
    assert_eq!(search_limit(None), 25);
    assert_eq!(search_limit(Some(3)), 3);
    assert_eq!(effective_api_key(Some("")), None);
    assert_eq!(effective_api_key(Some("k")), Some("k".to_string()));
    assert_eq!(effective_api_key(None), None);
    let e = dream_target("s", None).unwrap_err();
    assert_eq!(e.user_message(), "observer_id required for schedule_dream");
    assert_eq!(dream_target("", Some("o".to_string())).unwrap(), ("o".to_string(), None));
    assert_eq!(
        dream_target("s", Some("o".to_string())).unwrap(),
        ("o".to_string(), Some("s".to_string()))
    );
    assert_eq!(first_returned(vec![3, 4], "none").unwrap(), 3);
    let e = first_returned(Vec::<u8>::new(), "no message returned").unwrap_err();
    assert_eq!(e.user_message(), "no message returned");
    let o = ChatOpts::default();
    assert!(o.session_id.is_none() && o.peer_target.is_none());
}

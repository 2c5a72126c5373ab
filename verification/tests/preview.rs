use serde_json::Value;
use taicho::domain::{PeerContextView, PreviewMessage};

fn message_json(m: PreviewMessage) -> Value {
    let mut obj = serde_json::Map::new();
    obj.insert("role".to_owned(), Value::String(m.role));
    obj.insert("content".to_owned(), Value::String(m.content));
    Value::Object(obj)
}

fn openai_json(view: &PeerContextView) -> String {
    let messages = view.openai_preview_messages().into_iter().map(message_json).collect();
    serde_json::to_string_pretty(&Value::Array(messages)).unwrap()
}

fn anthropic_json(view: &PeerContextView) -> String {
    let (system, messages) = view.anthropic_preview_request();
    let mut obj = serde_json::Map::new();
    obj.insert("system".to_owned(), Value::String(system));
    obj.insert(
        "messages".to_owned(),
        Value::Array(messages.into_iter().map(message_json).collect()),
    );
    serde_json::to_string_pretty(&Value::Object(obj)).unwrap()
}

#[test]
fn openai_preview_with_data() {
    let view = PeerContextView {
        peer_id: "p1".into(),
        target_id: Some("t1".into()),
        representation: Some("I am a helpful assistant.".into()),
        peer_card: Some(vec!["friendly".into(), "concise".into()]),
    };
    let json = openai_json(&view);
    assert!(json.contains("\"role\": \"system\""));
    assert!(json.contains("I am a helpful assistant."));
    assert!(json.contains("Peer card: [friendly, concise]"));
}

#[test]
fn anthropic_preview_with_data() {
    let view = PeerContextView {
        peer_id: "p1".into(),
        target_id: None,
        representation: Some("I am a helper.".into()),
        peer_card: None,
    };
    let json = anthropic_json(&view);
    assert!(json.contains("\"system\": \"I am a helper.\""));
    assert!(json.contains("\"role\": \"user\""));
}

#[test]
fn preview_empty_context() {
    let view = PeerContextView {
        peer_id: "p1".into(),
        target_id: None,
        representation: None,
        peer_card: None,
    };
    assert!(openai_json(&view).contains("[]"));
    assert!(anthropic_json(&view).contains("\"system\": \"\""));
}

#[test]
fn preview_messages_exact() {
    let view = PeerContextView {
        peer_id: "p".into(),
        target_id: None,
        representation: None,
        peer_card: Some(vec!["x".into()]),
    };
    let msgs = view.openai_preview_messages();
    assert_eq!(msgs.len(), 1);
    assert_eq!(msgs[0].role, "system");
    assert_eq!(msgs[0].content, "Peer card: [x]");
    let (system, msgs) = view.anthropic_preview_request();
    assert_eq!(system, "Peer card: [x]");
    assert_eq!(msgs, vec![PreviewMessage { role: "user".into(), content: "...".into() }]);
}

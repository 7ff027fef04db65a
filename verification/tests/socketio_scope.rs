use async_php::http::socketio::{emit_scope, publish_scope, OptionEntry};

#[test]
fn broadcast_scope_excludes_sender() {
    let s = emit_scope(None, "sid1".to_string());
    assert!(s.rooms.is_empty());
    assert_eq!(s.except, vec!["sid1".to_string()]);
}

#[test]
fn room_scope() {
    let s = emit_scope(Some("lobby".to_string()), "sid2".to_string());
    assert_eq!(s.rooms, vec!["lobby".to_string()]);
    assert_eq!(s.except, vec!["sid2".to_string()]);
}

#[test]
fn publish_keeps_string_entries() {
    let s = publish_scope(
        Some(vec![OptionEntry::Text("a".to_string()), OptionEntry::Other, OptionEntry::Text("b".to_string())]),
        None,
    );
    assert_eq!(s.rooms, vec!["a".to_string(), "b".to_string()]);
    assert!(s.except.is_empty());
}

#[test]
fn scope_round_trip() {
    let sent = emit_scope(Some("room".to_string()), "me".to_string());
    let entries = |v: &Vec<String>| v.iter().map(|s| OptionEntry::Text(s.clone())).collect::<Vec<_>>();
    let got = publish_scope(Some(entries(&sent.rooms)), Some(entries(&sent.except)));
    assert_eq!(got.rooms, sent.rooms);
    assert_eq!(got.except, sent.except);
}

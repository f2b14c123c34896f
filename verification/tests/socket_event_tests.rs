use miti_tracefront::socket_event::{text_payload, SocketEvent, SocketMessage};

#[test]
fn text_message_gives_its_text() {
    let ev = SocketEvent::Message(SocketMessage::Text("{\"a\":1}".to_string()));
    assert_eq!(text_payload(ev), Some("{\"a\":1}".to_string()));
}

#[test]
fn empty_text_message_gives_empty_text() {
    let ev = SocketEvent::Message(SocketMessage::Text(String::new()));
    assert_eq!(text_payload(ev), Some(String::new()));
}

#[test]
fn other_messages_give_nothing() {
    assert_eq!(text_payload(SocketEvent::Message(SocketMessage::Binary(vec![1, 2]))), None);
    assert_eq!(text_payload(SocketEvent::Message(SocketMessage::Unknown("x".to_string()))), None);
    assert_eq!(text_payload(SocketEvent::Message(SocketMessage::Ping(vec![]))), None);
    assert_eq!(text_payload(SocketEvent::Message(SocketMessage::Pong(vec![3]))), None);
}

#[test]
fn connection_events_give_nothing() {
    assert_eq!(text_payload(SocketEvent::Opened), None);
    assert_eq!(text_payload(SocketEvent::Closed), None);
    assert_eq!(text_payload(SocketEvent::Error("text".to_string())), None);
}

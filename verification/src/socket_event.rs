//! What a web socket hands the front end, as plain values, and the one
//! decision taken on it: which events carry a text that should be read.

use vstd::prelude::*;

verus! {

/// A message received over the web socket.
pub enum SocketMessage {
    /// Binary message.
    Binary(Vec<u8>),
    /// Text message.
    Text(String),
    /// Incoming message of unknown type.
    Unknown(String),
    /// Ping frame.
    Ping(Vec<u8>),
    /// Pong frame.
    Pong(Vec<u8>),
}

/// Something that happened on the connection.
pub enum SocketEvent {
    /// The connection has been established.
    Opened,
    /// A message has been received.
    Message(SocketMessage),
    /// An error occurred.
    Error(String),
    /// The connection has been closed.
    Closed,
}

/// The text that an event carries, where it is a text message: the only
/// events that the front end reads a record from. Every other event is
/// passed over.
pub open spec fn spec_text_payload(event: SocketEvent) -> Option<Seq<char>> {
    match event {
        SocketEvent::Message(SocketMessage::Text(t)) => Some(t@),
        _ => None,
    }
}

/// Takes the text out of a text message; `None` for every other event.
pub fn text_payload(event: SocketEvent) -> (text: Option<String>)
    ensures
        text is Some <==> spec_text_payload(event) is Some,
        text matches Some(t) ==> spec_text_payload(event) == Some(t@),
        match event {
            SocketEvent::Message(SocketMessage::Text(t)) => text == Some(t),
            _ => text is None,
        },
{
    match event {
        SocketEvent::Message(SocketMessage::Text(t)) => Some(t),
        _ => None,
    }
}

/// Every text message is read, whatever its text, and gives that very
/// text; no other event gives a text.
pub proof fn lemma_every_text_is_read(event: SocketEvent)
    ensures
        event matches SocketEvent::Message(SocketMessage::Text(t)) ==> spec_text_payload(event)
            == Some(t@),
        !(event matches SocketEvent::Message(SocketMessage::Text(_))) ==> spec_text_payload(event)
            is None,
{
}

} // verus!

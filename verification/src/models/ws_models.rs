//! Messages exchanged over a websocket.

use vstd::prelude::*;

verus! {

/// A message from a client. `message_type` is the message's `type` field.
pub struct WSIncomming {
    pub username_to: Option<String>,
    pub message_type: String,
    pub text_content: Option<String>,
    pub message_id: Option<String>,
    pub usernames: Option<Vec<String>>,
}

/// An event sent to a client.
pub struct Message {
    pub event_type: String,
    pub event_content: EventContent,
}

/// The content of an event: the user it is about and the chat message.
pub struct EventContent {
    pub username_target: String,
    pub message_content: MessageContent,
}

/// A chat message. `message_type` is the message's `type` field.
pub struct MessageContent {
    pub message_type: String,
    pub text_content: String,
    pub date: String,
    pub id: String,
    pub received: bool,
}

} // verus!

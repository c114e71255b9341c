use vstd::prelude::*;

verus! {

/// A raw event carrying one text message.
pub struct LambdaEvent {
    pub message: String,
}

/// A plain acknowledgement body.
pub struct Response {
    pub response: String,
}

/// A text addressed to one chat.
pub struct ResponseMessage {
    pub chat_id: i64,
    pub text: String,
}

/// The platform's update envelope: exactly one inbound message.
pub struct Update {
    pub update_id: i64,
    pub message: Message,
}

/// One inbound chat message.
pub struct Message {
    pub message_id: i64,
    pub text: String,
    pub chat: Chat,
}

/// The conversation a message belongs to.
pub struct Chat {
    pub id: i64,
}

} // verus!

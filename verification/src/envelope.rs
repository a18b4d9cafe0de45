//! Command and response envelopes of the duplex channel.
//!
//! These are the tagged unions the client and the gateway exchange over
//! the long-lived connection.  Encoding them to and from the wire is the
//! transport layer's business; inside the crate they are plain values.

use vstd::prelude::*;
use crate::types::{Chat, Message};

verus! {

/// Client-to-server command envelope.
#[derive(Debug)]
pub enum WsRequest {
    GetDialogs,
    GetMessages { chat_id: i64 },
    SendMessage { chat_id: i64, text: String },
    SendFile { chat_id: i64, file_name: String, file_data: Vec<u8> },
}

/// Server-to-client response envelope.
///
/// `NewMessage` is part of the protocol but the dispatcher never emits
/// it: the baseline has no push channel, and freshness comes from the
/// client's polling scheduler alone.
#[derive(Debug)]
pub enum WsResponse {
    Dialogs { data: Vec<Chat> },
    Messages { chat_id: i64, data: Vec<Message> },
    MessageSent { chat_id: i64, success: bool, message: String },
    FileSent { chat_id: i64, success: bool, message: String },
    NewMessage { chat_id: i64, message: Message },
}

} // verus!

//! The per-connection command dispatcher.
//!
//! The transport loop outside the crate receives one frame at a time,
//! parses text frames into `WsRequest` values, and asks `frame_action`
//! what to do.  For each dispatched command it gathers the provider data
//! the command needs and builds exactly one response envelope through the
//! reply functions below.  Fetch failures are swallowed into empty-result
//! responses; a malformed frame is skipped and never closes the
//! connection.

use vstd::prelude::*;
use vstd::string::StringExecFns;
use crate::envelope::{WsRequest, WsResponse};
use crate::provider::{AuthProbe, DialogInfo, MessageInfo, SendOutcome};
use crate::session::{
    SessionManager, get_dialogs_rel, logins_unchanged, passwords_unchanged, sessions_unchanged,
    chats_unchanged, messages_projection,
};

verus! {

/// One received frame, after the transport parsed it.
#[derive(Debug)]
pub enum ClientFrame {
    /// A text frame that parsed as a command.
    Command(WsRequest),
    /// A text frame that did not parse as a command.
    Malformed,
    /// A binary or control frame.
    NonText,
    /// The transport signalled closure or error.
    Closed,
}

/// What the connection loop does with a frame.
#[derive(Debug)]
pub enum FrameAction {
    /// Dispatch the command and send exactly one response.
    Dispatch(WsRequest),
    /// Skip the frame; the connection stays open.
    KeepOpen,
    /// Terminate the connection loop.
    Shutdown,
}

/// The frame rule as a function of the frame alone.
pub open spec fn frame_action_spec(f: ClientFrame) -> FrameAction {
    match f {
        ClientFrame::Command(req) => FrameAction::Dispatch(req),
        ClientFrame::Malformed => FrameAction::KeepOpen,
        ClientFrame::NonText => FrameAction::KeepOpen,
        ClientFrame::Closed => FrameAction::Shutdown,
    }
}

/// Decides what the connection loop does with one received frame.
/// Malformed and non-text frames are skipped, not errors: the connection
/// stays open and the next frame is handled as usual.
pub fn frame_action(f: ClientFrame) -> (r: FrameAction)
    ensures
        r == frame_action_spec(f),
{
    match f {
        ClientFrame::Command(req) => FrameAction::Dispatch(req),
        ClientFrame::Malformed => FrameAction::KeepOpen,
        ClientFrame::NonText => FrameAction::KeepOpen,
        ClientFrame::Closed => FrameAction::Shutdown,
    }
}

/// Builds the response to `GetDialogs`.  `fetched` is the full dialog
/// list when the authorization probe passed and the fetch worked, and
/// `None` otherwise; an unauthorized client and a failed fetch both get
/// an empty list, not an error.
pub fn get_dialogs_reply(
    mgr: &mut SessionManager,
    probe: AuthProbe,
    fetched: Option<Vec<DialogInfo>>,
) -> (r: WsResponse)
    requires
        old(mgr).wf(),
        !(probe is Authorized) ==> fetched is None,
        fetched matches Some(f) ==> f@.len() <= i64::MAX,
    ensures
        final(mgr).wf(),
        match fetched {
            Some(f) => match r {
                WsResponse::Dialogs { data } => get_dialogs_rel(*old(mgr), *final(mgr), f@, data@),
                _ => false,
            },
            None => {
                &&& match r {
                    WsResponse::Dialogs { data } => data@.len() == 0,
                    _ => false,
                }
                &&& logins_unchanged(*old(mgr), *final(mgr))
                &&& passwords_unchanged(*old(mgr), *final(mgr))
                &&& sessions_unchanged(*old(mgr), *final(mgr))
                &&& chats_unchanged(*old(mgr), *final(mgr))
            },
        },
{
    if !matches!(probe, AuthProbe::Authorized) {
        return WsResponse::Dialogs { data: Vec::new() };
    }
    match fetched {
        Some(f) => {
            let data = mgr.get_dialogs(&f);
            WsResponse::Dialogs { data }
        }
        None => WsResponse::Dialogs { data: Vec::new() },
    }
}

/// Builds the response to `GetMessages`.  An unknown chat id and a failed
/// fetch are both swallowed into an empty list tagged with the same chat
/// id — the client cannot tell "no data" from "fetch failed".
pub fn get_messages_reply(
    mgr: &SessionManager,
    chat_id: i64,
    limit: usize,
    fetched: Option<Vec<MessageInfo>>,
) -> (r: WsResponse)
    requires
        mgr.wf(),
    ensures
        match r {
            WsResponse::Messages { chat_id: c, data } => {
                &&& c == chat_id
                &&& if mgr.chat_known(chat_id as int) && fetched is Some {
                    &&& messages_projection(fetched.unwrap()@, limit as int, data@)
                    &&& data@.len() <= limit
                } else {
                    data@.len() == 0
                }
            },
            _ => false,
        },
{
    match fetched {
        Some(f) => match mgr.get_messages(chat_id, limit, &f) {
            Ok(data) => WsResponse::Messages { chat_id, data },
            Err(_) => WsResponse::Messages { chat_id, data: Vec::new() },
        },
        None => WsResponse::Messages { chat_id, data: Vec::new() },
    }
}

/// The response envelope to `SendMessage` has `success` exactly when the
/// provider accepted the message, and carries a human-readable account of
/// what happened.
pub open spec fn send_reply_shape(chat_id: int, outcome: SendOutcome, r: WsResponse) -> bool {
    match r {
        WsResponse::MessageSent { chat_id: c, success, message } => {
            &&& c == chat_id
            &&& success == (outcome is Delivered)
            &&& message@ == match outcome {
                SendOutcome::Delivered => "Message sent successfully"@,
                SendOutcome::ChatMissing => "Failed to send message: Chat not found"@,
                SendOutcome::ProviderFailed(e) => "Failed to send message: "@ + e@,
            }
        },
        _ => false,
    }
}

/// Builds the response to `SendMessage` from the delivery outcome.
pub fn send_message_reply(chat_id: i64, outcome: SendOutcome) -> (r: WsResponse)
    ensures
        send_reply_shape(chat_id as int, outcome, r),
{
    match outcome {
        SendOutcome::Delivered => WsResponse::MessageSent {
            chat_id,
            success: true,
            message: "Message sent successfully".to_owned(),
        },
        SendOutcome::ChatMissing => WsResponse::MessageSent {
            chat_id,
            success: false,
            message: "Failed to send message: Chat not found".to_owned(),
        },
        SendOutcome::ProviderFailed(e) => {
            let message = String::from_str("Failed to send message: ").concat(e.as_str());
            WsResponse::MessageSent { chat_id, success: false, message }
        },
    }
}

/// Builds the response to `SendFile`: the feature is unimplemented and
/// every attempt fails.
pub fn send_file_reply(chat_id: i64) -> (r: WsResponse)
    ensures
        match r {
            WsResponse::FileSent { chat_id: c, success, message } => {
                &&& c == chat_id
                &&& !success
                &&& message@ == "File sending not yet implemented"@
            },
            _ => false,
        },
{
    WsResponse::FileSent {
        chat_id,
        success: false,
        message: "File sending not yet implemented".to_owned(),
    }
}

/// A malformed frame never closes the connection, and a command frame
/// that follows it is dispatched as usual — in particular a `GetDialogs`
/// command still gets its `Dialogs` response envelope.
pub proof fn law_malformed_frame_skipped()
    ensures
        frame_action_spec(ClientFrame::Malformed) is KeepOpen,
        frame_action_spec(ClientFrame::NonText) is KeepOpen,
        forall|req: WsRequest| frame_action_spec(ClientFrame::Command(req)) == FrameAction::Dispatch(
            req,
        ),
{
}

/// Sending to a chat id the index does not know yields `ChatNotFound`
/// from the session layer, and the corresponding response envelope has
/// `success == false`.
pub proof fn law_send_unknown_chat(
    m: SessionManager,
    chat_id: int,
    resp: WsResponse,
)
    requires
        !m.chat_known(chat_id),
        send_reply_shape(chat_id, SendOutcome::ChatMissing, resp),
    ensures
        crate::session::resolve_chat_spec(m, chat_id) == Err::<u64, crate::errors::AuthError>(
            crate::errors::AuthError::ChatNotFound,
        ),
        resp matches WsResponse::MessageSent { success, .. } && !success,
{
}

} // verus!

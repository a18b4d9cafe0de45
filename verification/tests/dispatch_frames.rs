use wgram::dispatch::{
    frame_action, get_dialogs_reply, get_messages_reply, send_file_reply, send_message_reply,
    ClientFrame, FrameAction,
};
use wgram::envelope::{WsRequest, WsResponse};
use wgram::provider::{AuthProbe, DialogInfo, DialogMeta, MessageInfo, SendOutcome};
use wgram::session::SessionManager;

fn one_dialog() -> Vec<DialogInfo> {
    vec![DialogInfo {
        handle: 100,
        name: Some("Alice".to_string()),
        last_message: Some("hi".to_string()),
        meta: DialogMeta::Known { unread_count: 1, folder_id: None },
    }]
}

#[test]
fn malformed_frame_keeps_connection_open() {
    // A malformed frame is skipped...
    assert!(matches!(frame_action(ClientFrame::Malformed), FrameAction::KeepOpen));
    assert!(matches!(frame_action(ClientFrame::NonText), FrameAction::KeepOpen));
    // ...and a valid command that follows is dispatched and answered.
    let next = frame_action(ClientFrame::Command(WsRequest::GetDialogs));
    assert!(matches!(next, FrameAction::Dispatch(WsRequest::GetDialogs)));
    let mut mgr = SessionManager::new();
    let resp = get_dialogs_reply(&mut mgr, AuthProbe::Authorized, Some(one_dialog()));
    match resp {
        WsResponse::Dialogs { data } => {
            assert_eq!(data.len(), 1);
            assert_eq!(data[0].name, "Alice");
        }
        _ => panic!("expected a Dialogs response"),
    }
}

#[test]
fn closed_frame_stops_the_loop() {
    assert!(matches!(frame_action(ClientFrame::Closed), FrameAction::Shutdown));
}

#[test]
fn unauthorized_get_dialogs_returns_empty_list() {
    let mut mgr = SessionManager::new();
    let resp = get_dialogs_reply(&mut mgr, AuthProbe::NotAuthorized, None);
    match resp {
        WsResponse::Dialogs { data } => assert!(data.is_empty()),
        _ => panic!("expected a Dialogs response"),
    }
    let resp = get_dialogs_reply(&mut mgr, AuthProbe::ProbeFailed, None);
    match resp {
        WsResponse::Dialogs { data } => assert!(data.is_empty()),
        _ => panic!("expected a Dialogs response"),
    }
}

#[test]
fn failed_message_fetch_is_swallowed_into_empty() {
    let mgr = SessionManager::new();
    // Unknown chat: even with data at hand the reply is an empty list
    // tagged with the same chat id.
    let fetched = vec![MessageInfo {
        id: 1,
        text: "x".to_string(),
        sender_name: None,
        outgoing: false,
        timestamp: 1,
    }];
    match get_messages_reply(&mgr, 9, 50, Some(fetched)) {
        WsResponse::Messages { chat_id, data } => {
            assert_eq!(chat_id, 9);
            assert!(data.is_empty());
        }
        _ => panic!("expected a Messages response"),
    }
    // Failed fetch: same shape.
    match get_messages_reply(&mgr, 9, 50, None) {
        WsResponse::Messages { chat_id, data } => {
            assert_eq!(chat_id, 9);
            assert!(data.is_empty());
        }
        _ => panic!("expected a Messages response"),
    }
}

#[test]
fn known_chat_messages_reply_carries_records() {
    let mut mgr = SessionManager::new();
    let _ = get_dialogs_reply(&mut mgr, AuthProbe::Authorized, Some(one_dialog()));
    let fetched = vec![
        MessageInfo { id: 2, text: "b".to_string(), sender_name: None, outgoing: false, timestamp: 20 },
        MessageInfo { id: 1, text: "a".to_string(), sender_name: None, outgoing: false, timestamp: 10 },
    ];
    match get_messages_reply(&mgr, 1, 50, Some(fetched)) {
        WsResponse::Messages { chat_id, data } => {
            assert_eq!(chat_id, 1);
            assert_eq!(data.len(), 2);
            assert_eq!(data[0].text, "a");
            assert_eq!(data[1].text, "b");
        }
        _ => panic!("expected a Messages response"),
    }
}

#[test]
fn send_reply_reports_success_and_failure() {
    match send_message_reply(3, SendOutcome::Delivered) {
        WsResponse::MessageSent { chat_id, success, message } => {
            assert_eq!(chat_id, 3);
            assert!(success);
            assert_eq!(message, "Message sent successfully");
        }
        _ => panic!("expected a MessageSent response"),
    }
    // The unknown-chat envelope: success is false.
    match send_message_reply(42, SendOutcome::ChatMissing) {
        WsResponse::MessageSent { chat_id, success, message } => {
            assert_eq!(chat_id, 42);
            assert!(!success);
            assert_eq!(message, "Failed to send message: Chat not found");
        }
        _ => panic!("expected a MessageSent response"),
    }
    match send_message_reply(3, SendOutcome::ProviderFailed("flood wait".to_string())) {
        WsResponse::MessageSent { chat_id, success, message } => {
            assert_eq!(chat_id, 3);
            assert!(!success);
            assert_eq!(message, "Failed to send message: flood wait");
        }
        _ => panic!("expected a MessageSent response"),
    }
}

#[test]
fn send_file_always_fails() {
    match send_file_reply(7) {
        WsResponse::FileSent { chat_id, success, message } => {
            assert_eq!(chat_id, 7);
            assert!(!success);
            assert_eq!(message, "File sending not yet implemented");
        }
        _ => panic!("expected a FileSent response"),
    }
}

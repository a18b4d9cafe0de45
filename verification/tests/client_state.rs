use wgram::client::{
    auth_after_code_request, auth_after_verify, delivery_followup, AuthStep, ClientState,
};
use wgram::envelope::WsRequest;
use wgram::types::{Chat, Message, ViewMode};

fn chat(id: i64, name: &str, archived: bool) -> Chat {
    Chat {
        id,
        name: name.to_string(),
        last_message: String::new(),
        time: String::new(),
        unread_count: 2,
        is_archived: archived,
        messages: Vec::new(),
    }
}

fn message(id: i32, text: &str, ts: i64) -> Message {
    Message {
        id,
        sender_name: "Alice".to_string(),
        text: text.to_string(),
        is_outgoing: false,
        timestamp: ts,
        is_file: false,
        file_name: None,
    }
}

#[test]
fn select_chat_clears_unread_and_requests_messages() {
    let mut c = ClientState::new();
    c.apply_dialogs(vec![chat(1, "Alice", false), chat(2, "Bob", false)]);
    let req = c.select_chat(2, true);
    assert!(matches!(req, Some(WsRequest::GetMessages { chat_id: 2 })));
    assert_eq!(c.selected_chat, Some(2));
    assert_eq!(c.chats[1].unread_count, 0);
    assert_eq!(c.chats[0].unread_count, 2);
}

#[test]
fn select_chat_offline_sends_nothing() {
    let mut c = ClientState::new();
    c.apply_dialogs(vec![chat(1, "Alice", false)]);
    assert!(c.select_chat(1, false).is_none());
    assert_eq!(c.selected_chat, Some(1));
}

#[test]
fn local_echo_appends_and_requests_send() {
    let mut c = ClientState::new();
    c.apply_dialogs(vec![chat(1, "Alice", false)]);
    let _ = c.select_chat(1, false);
    let req = c.local_echo("hello there", 1_700_000_000_000, "09:30");
    match req {
        Some(WsRequest::SendMessage { chat_id, text }) => {
            assert_eq!(chat_id, 1);
            assert_eq!(text, "hello there");
        }
        _ => panic!("expected a SendMessage command"),
    }
    assert_eq!(c.next_message_id, 101);
    assert_eq!(c.chats[0].messages.len(), 1);
    let echo = &c.chats[0].messages[0];
    assert_eq!(echo.id, 100);
    assert_eq!(echo.sender_name, "You");
    assert_eq!(echo.text, "hello there");
    assert!(echo.is_outgoing);
    assert_eq!(echo.timestamp, 1_700_000_000_000);
    assert_eq!(c.chats[0].last_message, "hello there");
    assert_eq!(c.chats[0].time, "09:30");
}

#[test]
fn local_echo_without_selection_is_a_no_op() {
    let mut c = ClientState::new();
    c.apply_dialogs(vec![chat(1, "Alice", false)]);
    assert!(c.local_echo("hi", 0, "09:30").is_none());
    assert_eq!(c.next_message_id, 100);
    assert!(c.chats[0].messages.is_empty());
}

#[test]
fn create_task_uses_chat_name_and_switches_pane() {
    let mut c = ClientState::new();
    c.apply_dialogs(vec![chat(5, "Alice", false)]);
    let _ = c.select_chat(5, false);
    assert!(c.create_task("buy milk", "10:15"));
    assert_eq!(c.tasks.len(), 1);
    assert_eq!(c.tasks[0].id, 1);
    assert_eq!(c.tasks[0].user_name, "Alice");
    assert_eq!(c.tasks[0].text, "buy milk");
    assert_eq!(c.tasks[0].created_at, "10:15");
    assert!(!c.tasks[0].completed);
    assert_eq!(c.next_task_id, 2);
    assert_eq!(c.view_mode, ViewMode::Tasks);
}

#[test]
fn create_task_for_unlisted_chat_says_unknown() {
    let mut c = ClientState::new();
    let _ = c.select_chat(9, false);
    assert!(c.create_task("todo", "10:15"));
    assert_eq!(c.tasks[0].user_name, "Unknown");
}

#[test]
fn create_task_without_selection_does_nothing() {
    let mut c = ClientState::new();
    assert!(!c.create_task("todo", "10:15"));
    assert!(c.tasks.is_empty());
    assert_eq!(c.view_mode, ViewMode::Chats);
}

#[test]
fn toggle_task_flips_completion() {
    let mut c = ClientState::new();
    let _ = c.select_chat(9, false);
    assert!(c.create_task("a", "10:15"));
    assert!(c.create_task("b", "10:16"));
    c.toggle_task(1);
    assert!(c.tasks[0].completed);
    assert!(!c.tasks[1].completed);
    c.toggle_task(1);
    assert!(!c.tasks[0].completed);
    // Unknown id: nothing happens.
    c.toggle_task(42);
    assert!(!c.tasks[0].completed && !c.tasks[1].completed);
}

#[test]
fn apply_messages_stores_and_reports_growth() {
    let mut c = ClientState::new();
    c.apply_dialogs(vec![chat(1, "Alice", false)]);
    // First response always counts as new.
    assert!(c.apply_messages(1, vec![message(1, "a", 10)]));
    assert_eq!(c.chats[0].messages.len(), 1);
    // Same count: not new.
    assert!(!c.apply_messages(1, vec![message(1, "a", 10)]));
    // More records: new.
    assert!(c.apply_messages(1, vec![message(1, "a", 10), message(2, "b", 20)]));
    assert_eq!(c.chats[0].messages.len(), 2);
}

#[test]
fn apply_messages_for_unlisted_chat_only_counts() {
    let mut c = ClientState::new();
    assert!(c.apply_messages(7, vec![message(1, "a", 10)]));
    assert!(!c.apply_messages(7, vec![message(1, "a", 10)]));
}

#[test]
fn apply_new_message_updates_preview() {
    let mut c = ClientState::new();
    c.apply_dialogs(vec![chat(1, "Alice", false)]);
    c.apply_new_message(1, message(3, "fresh", 30), "11:45");
    assert_eq!(c.chats[0].messages.len(), 1);
    assert_eq!(c.chats[0].last_message, "fresh");
    assert_eq!(c.chats[0].time, "11:45");
}

#[test]
fn delivery_followup_refetches_only_on_success() {
    assert!(matches!(delivery_followup(4, true), Some(WsRequest::GetMessages { chat_id: 4 })));
    assert!(delivery_followup(4, false).is_none());
}

#[test]
fn sorted_messages_are_chronological() {
    let mut c = ClientState::new();
    let mut chat1 = chat(1, "Alice", false);
    chat1.messages = vec![message(3, "third", 30), message(1, "first", 10), message(2, "second", 20)];
    c.apply_dialogs(vec![chat1]);
    let _ = c.select_chat(1, false);
    let sorted = c.sorted_messages();
    assert_eq!(sorted.len(), 3);
    assert_eq!(sorted[0].text, "first");
    assert_eq!(sorted[1].text, "second");
    assert_eq!(sorted[2].text, "third");
}

#[test]
fn sorted_messages_without_selection_are_empty() {
    let c = ClientState::new();
    assert!(c.sorted_messages().is_empty());
}

#[test]
fn filter_matches_names_case_insensitively() {
    let mut c = ClientState::new();
    c.apply_dialogs(vec![
        chat(1, "aLiCe", false),
        chat(2, "Bob", false),
        chat(3, "MALICE", false),
    ]);
    // "ALI" occurs in none of the raw names, but in two folded ones: the
    // filter must fold both sides.
    let hits = c.filter_chats("ALI", false);
    assert_eq!(hits.len(), 2);
    assert_eq!(hits[0].name, "aLiCe");
    assert_eq!(hits[1].name, "MALICE");
    assert!(c.filter_chats("xyz", false).is_empty());
}

#[test]
fn filter_respects_archive_toggle() {
    let mut c = ClientState::new();
    c.apply_dialogs(vec![chat(1, "Alice", false), chat(2, "Old stuff", true)]);
    let active = c.filter_chats("", false);
    assert_eq!(active.len(), 1);
    assert_eq!(active[0].id, 1);
    let archived = c.filter_chats("", true);
    assert_eq!(archived.len(), 1);
    assert_eq!(archived[0].id, 2);
    assert_eq!(c.archived_count(), 1);
}

#[test]
fn auth_form_steps() {
    assert_eq!(auth_after_code_request(AuthStep::Phone, true), AuthStep::Code);
    assert_eq!(auth_after_code_request(AuthStep::Phone, false), AuthStep::Phone);
    assert_eq!(auth_after_verify(AuthStep::Code, true, true), AuthStep::Authenticated);
    assert_eq!(auth_after_verify(AuthStep::Code, true, false), AuthStep::Code);
    assert_eq!(auth_after_verify(AuthStep::Code, false, false), AuthStep::Code);
}

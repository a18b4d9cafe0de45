//! The client-visible data model: messages, chat summaries, tasks.

use vstd::prelude::*;

verus! {

/// One message inside a conversation, as the client sees it.
#[derive(Debug, PartialEq)]
pub struct Message {
    pub id: i32,
    pub sender_name: String,
    pub text: String,
    pub is_outgoing: bool,
    /// Seconds since the epoch for provider messages; the client's local
    /// echo stores its own clock reading here.
    pub timestamp: i64,
    pub is_file: bool,
    pub file_name: Option<String>,
}

impl Clone for Message {
    fn clone(&self) -> (r: Self)
        ensures
            r == *self,
    {
        Message {
            id: self.id,
            sender_name: self.sender_name.clone(),
            text: self.text.clone(),
            is_outgoing: self.is_outgoing,
            timestamp: self.timestamp,
            is_file: self.is_file,
            file_name: match &self.file_name {
                Some(n) => Some(n.clone()),
                None => None,
            },
        }
    }
}

/// Oldest to newest: timestamps never decrease along the sequence.
pub open spec fn chronological(s: Seq<Message>) -> bool {
    forall|i: int, j: int| 0 <= i < j < s.len() ==> s[i].timestamp <= s[j].timestamp
}

/// A conversation summary plus the client-local fields (`time`, `messages`)
/// that the gateway never sends.
#[derive(Debug, PartialEq)]
pub struct Chat {
    pub id: i64,
    pub name: String,
    pub last_message: String,
    pub time: String,
    pub unread_count: i32,
    pub is_archived: bool,
    pub messages: Vec<Message>,
}

/// Copies a message list element for element.
pub fn clone_messages(v: &Vec<Message>) -> (r: Vec<Message>)
    ensures
        r@ == v@,
{
    let mut r: Vec<Message> = Vec::new();
    let mut i: usize = 0;
    while i < v.len()
        invariant
            i <= v.len(),
            r@ == v@.subrange(0, i as int),
        decreases v.len() - i,
    {
        r.push(v[i].clone());
        assert(r@ =~= v@.subrange(0, i + 1 as int));
        i += 1;
    }
    assert(r@ =~= v@);
    r
}

/// Field-for-field agreement between two chat values.  `Vec` values are
/// only ever compared through their views, so this is the strongest
/// equality a copied `Chat` can promise.
pub open spec fn chat_like(a: Chat, b: Chat) -> bool {
    &&& a.id == b.id
    &&& a.name == b.name
    &&& a.last_message == b.last_message
    &&& a.time == b.time
    &&& a.unread_count == b.unread_count
    &&& a.is_archived == b.is_archived
    &&& a.messages@ == b.messages@
}

impl Clone for Chat {
    fn clone(&self) -> (r: Self)
        ensures
            chat_like(r, *self),
    {
        Chat {
            id: self.id,
            name: self.name.clone(),
            last_message: self.last_message.clone(),
            time: self.time.clone(),
            unread_count: self.unread_count,
            is_archived: self.is_archived,
            messages: clone_messages(&self.messages),
        }
    }
}

/// A to-do item the client derives from a chat.
#[derive(Debug, PartialEq)]
pub struct Task {
    pub id: usize,
    pub user_name: String,
    pub text: String,
    pub created_at: String,
    pub completed: bool,
}

impl Clone for Task {
    fn clone(&self) -> (r: Self)
        ensures
            r == *self,
    {
        Task {
            id: self.id,
            user_name: self.user_name.clone(),
            text: self.text.clone(),
            created_at: self.created_at.clone(),
            completed: self.completed,
        }
    }
}

/// Which pane the client shows.
#[derive(Clone, Copy, Debug, PartialEq, Eq, Structural)]
pub enum ViewMode {
    Chats,
    Tasks,
}

} // verus!

//! The client's local state and how server responses update it.
//!
//! The browser side of the system keeps the chat list, the selection, the
//! task list and a few counters.  Everything here is the decision and
//! update logic of that state; the surrounding code owns the socket and
//! the clock, renders the views, and passes clock readings in as plain
//! values (`now_ms`, or a pre-rendered `HH:MM` label).

use vstd::prelude::*;
use crate::envelope::WsRequest;
use crate::text::{lower_of, has_substring, to_lower, contains_sub};
use crate::types::{Chat, Message, Task, ViewMode, chat_like, chronological};

verus! {

/// How many messages a chat had when its list was last applied.
pub struct CountEntry {
    pub chat_id: i64,
    pub count: usize,
}

pub open spec fn counts_have(s: Seq<CountEntry>, id: i64) -> bool {
    exists|i: int| 0 <= i < s.len() && s[i].chat_id == id
}

pub open spec fn counts_index(s: Seq<CountEntry>, id: i64) -> int {
    choose|i: int| 0 <= i < s.len() && s[i].chat_id == id
}

pub open spec fn counts_at(s: Seq<CountEntry>, id: i64) -> usize {
    s[counts_index(s, id)].count
}

pub open spec fn distinct_counts(s: Seq<CountEntry>) -> bool {
    forall|i: int, j: int| 0 <= i < j < s.len() ==> s[i].chat_id != s[j].chat_id
}

proof fn lemma_count_entry_unique(s: Seq<CountEntry>, id: i64, i: int)
    requires
        distinct_counts(s),
        0 <= i < s.len(),
        s[i].chat_id == id,
    ensures
        counts_have(s, id),
        counts_index(s, id) == i,
        counts_at(s, id) == s[i].count,
{
    assert(counts_have(s, id));
    let j = counts_index(s, id);
    if j != i {
        assert(s[i].chat_id != s[j].chat_id);
        assert(false);
    }
}

/// There is a chat with this id in the list.
pub open spec fn has_chat(chats: Seq<Chat>, id: i64) -> bool {
    exists|i: int| 0 <= i < chats.len() && chats[i].id == id
}

/// `i` is the position of the first chat with this id — the one every
/// lookup works on.
pub open spec fn first_chat_at(chats: Seq<Chat>, id: i64, i: int) -> bool {
    &&& 0 <= i < chats.len()
    &&& chats[i].id == id
    &&& forall|j: int| 0 <= j < i ==> chats[j].id != id
}

/// `b` is `a` with the unread counter cleared and all else equal.
pub open spec fn unread_cleared(a: Chat, b: Chat) -> bool {
    &&& b.id == a.id
    &&& b.name == a.name
    &&& b.last_message == a.last_message
    &&& b.time == a.time
    &&& b.unread_count == 0
    &&& b.is_archived == a.is_archived
    &&& b.messages@ == a.messages@
}

/// The whole client-side state.
pub struct ClientState {
    pub chats: Vec<Chat>,
    pub selected_chat: Option<i64>,
    /// Ids for locally echoed messages.
    pub next_message_id: i32,
    pub tasks: Vec<Task>,
    pub next_task_id: usize,
    pub view_mode: ViewMode,
    pub last_message_count: Vec<CountEntry>,
}

impl ClientState {
    pub open spec fn wf(&self) -> bool {
        distinct_counts(self.last_message_count@)
    }

    pub open spec fn has_count(&self, id: i64) -> bool {
        counts_have(self.last_message_count@, id)
    }

    pub open spec fn count_of(&self, id: i64) -> usize {
        counts_at(self.last_message_count@, id)
    }
}

pub open spec fn counts_unchanged(pre: ClientState, post: ClientState) -> bool {
    &&& forall|id: i64| #[trigger] post.has_count(id) == pre.has_count(id)
    &&& forall|id: i64| pre.has_count(id) ==> #[trigger] post.count_of(id) == pre.count_of(id)
}

impl ClientState {
    /// A fresh client: no chats, nothing selected, local message ids from
    /// 100 and task ids from 1, showing the chat pane.
    pub fn new() -> (r: Self)
        ensures
            r.wf(),
            r.chats@.len() == 0,
            r.selected_chat is None,
            r.next_message_id == 100,
            r.tasks@.len() == 0,
            r.next_task_id == 1,
            r.view_mode == ViewMode::Chats,
            forall|id: i64| !(#[trigger] r.has_count(id)),
    {
        ClientState {
            chats: Vec::new(),
            selected_chat: None,
            next_message_id: 100,
            tasks: Vec::new(),
            next_task_id: 1,
            view_mode: ViewMode::Chats,
            last_message_count: Vec::new(),
        }
    }

    /// A `Dialogs` response replaces the chat list wholesale.
    pub fn apply_dialogs(&mut self, data: Vec<Chat>)
        requires
            old(self).wf(),
        ensures
            final(self).wf(),
            final(self).chats@ == data@,
            final(self).selected_chat == old(self).selected_chat,
            final(self).next_message_id == old(self).next_message_id,
            final(self).tasks@ == old(self).tasks@,
            final(self).next_task_id == old(self).next_task_id,
            final(self).view_mode == old(self).view_mode,
            counts_unchanged(*old(self), *final(self)),
    {
        self.chats = data;
    }

    /// Selecting a chat clears its unread counter and, when the
    /// connection is live, asks for its messages (the caller must then
    /// mark the fetch in flight).
    pub fn select_chat(&mut self, chat_id: i64, connected: bool) -> (r: Option<WsRequest>)
        requires
            old(self).wf(),
        ensures
            final(self).wf(),
            final(self).selected_chat == Some(chat_id),
            final(self).next_message_id == old(self).next_message_id,
            final(self).tasks@ == old(self).tasks@,
            final(self).next_task_id == old(self).next_task_id,
            final(self).view_mode == old(self).view_mode,
            counts_unchanged(*old(self), *final(self)),
            if has_chat(old(self).chats@, chat_id) {
                exists|i: int|
                    {
                        &&& #[trigger] first_chat_at(old(self).chats@, chat_id, i)
                        &&& final(self).chats@.len() == old(self).chats@.len()
                        &&& unread_cleared(old(self).chats@[i], final(self).chats@[i])
                        &&& forall|j: int| 0 <= j < old(self).chats@.len() && j != i
                            ==> final(self).chats@[j] == old(self).chats@[j]
                    }
            } else {
                final(self).chats@ == old(self).chats@
            },
            connected ==> r == Some(WsRequest::GetMessages { chat_id }),
            !connected ==> r is None,
    {
        self.selected_chat = Some(chat_id);
        let mut i: usize = 0;
        while i < self.chats.len()
            invariant
                old(self).wf(),
                i <= self.chats@.len(),
                forall|j: int| 0 <= j < i ==> self.chats@[j].id != chat_id,
                self.chats@ == old(self).chats@,
                self.selected_chat == Some(chat_id),
                self.next_message_id == old(self).next_message_id,
                self.tasks@ == old(self).tasks@,
                self.next_task_id == old(self).next_task_id,
                self.view_mode == old(self).view_mode,
                self.last_message_count@ == old(self).last_message_count@,
            decreases self.chats@.len() - i,
        {
            if self.chats[i].id == chat_id {
                self.chats[i].unread_count = 0;
                proof {
                    assert(first_chat_at(old(self).chats@, chat_id, i as int));
                }
                if connected {
                    return Some(WsRequest::GetMessages { chat_id });
                }
                return None;
            }
            i += 1;
        }
        if connected {
            Some(WsRequest::GetMessages { chat_id })
        } else {
            None
        }
    }

    /// The `use_tasks` action: turns the typed text into a task attributed
    /// to the selected chat's name (or "Unknown"), then switches to the
    /// task pane.  Does nothing when no chat is selected.
    pub fn create_task(&mut self, text: &str, clock_label: &str) -> (r: bool)
        requires
            old(self).wf(),
            old(self).next_task_id < usize::MAX,
        ensures
            final(self).wf(),
            final(self).chats@ == old(self).chats@,
            final(self).selected_chat == old(self).selected_chat,
            final(self).next_message_id == old(self).next_message_id,
            counts_unchanged(*old(self), *final(self)),
            match old(self).selected_chat {
                None => {
                    &&& !r
                    &&& final(self).tasks@ == old(self).tasks@
                    &&& final(self).next_task_id == old(self).next_task_id
                    &&& final(self).view_mode == old(self).view_mode
                },
                Some(id) => {
                    &&& r
                    &&& final(self).tasks@.len() == old(self).tasks@.len() + 1
                    &&& final(self).tasks@.subrange(0, old(self).tasks@.len() as int) == old(
                        self,
                    ).tasks@
                    &&& {
                        let t = final(self).tasks@.last();
                        &&& t.id == old(self).next_task_id
                        &&& t.user_name@ == if has_chat(old(self).chats@, id) {
                            chat_name_first(old(self).chats@, id)
                        } else {
                            "Unknown"@
                        }
                        &&& t.text@ == text@
                        &&& t.created_at@ == clock_label@
                        &&& !t.completed
                    }
                    &&& final(self).next_task_id == old(self).next_task_id + 1
                    &&& final(self).view_mode == ViewMode::Tasks
                },
            },
    {
        let selected = match self.selected_chat {
            Some(id) => id,
            None => {
                return false;
            },
        };
        let user_name = match self.find_chat(selected) {
            Some(i) => {
                proof {
                    lemma_first_chat_at(self.chats@, selected, i as int);
                }
                self.chats[i].name.clone()
            },
            None => "Unknown".to_owned(),
        };
        let task = Task {
            id: self.next_task_id,
            user_name,
            text: text.to_owned(),
            created_at: clock_label.to_owned(),
            completed: false,
        };
        self.next_task_id = self.next_task_id + 1;
        self.tasks.push(task);
        self.view_mode = ViewMode::Tasks;
        true
    }

    /// The checkbox action in the task list: flips the first task with
    /// this id.
    pub fn toggle_task(&mut self, task_id: usize)
        requires
            old(self).wf(),
        ensures
            final(self).wf(),
            final(self).chats@ == old(self).chats@,
            final(self).selected_chat == old(self).selected_chat,
            final(self).next_message_id == old(self).next_message_id,
            final(self).next_task_id == old(self).next_task_id,
            final(self).view_mode == old(self).view_mode,
            counts_unchanged(*old(self), *final(self)),
            if exists|i: int| 0 <= i < old(self).tasks@.len() && old(self).tasks@[i].id == task_id {
                exists|i: int|
                    {
                        &&& 0 <= i < old(self).tasks@.len()
                        &&& old(self).tasks@[i].id == task_id
                        &&& (forall|j: int| 0 <= j < i ==> old(self).tasks@[j].id != task_id)
                        &&& final(self).tasks@.len() == old(self).tasks@.len()
                        &&& #[trigger] task_flipped(old(self).tasks@[i], final(self).tasks@[i])
                        &&& forall|j: int| 0 <= j < old(self).tasks@.len() && j != i
                            ==> final(self).tasks@[j] == old(self).tasks@[j]
                    }
            } else {
                final(self).tasks@ == old(self).tasks@
            },
    {
        let mut i: usize = 0;
        while i < self.tasks.len()
            invariant
                old(self).wf(),
                i <= self.tasks@.len(),
                forall|j: int| 0 <= j < i ==> self.tasks@[j].id != task_id,
                self.tasks@ == old(self).tasks@,
                self.chats@ == old(self).chats@,
                self.selected_chat == old(self).selected_chat,
                self.next_message_id == old(self).next_message_id,
                self.next_task_id == old(self).next_task_id,
                self.view_mode == old(self).view_mode,
                self.last_message_count@ == old(self).last_message_count@,
            decreases self.tasks@.len() - i,
        {
            if self.tasks[i].id == task_id {
                let was = self.tasks[i].completed;
                self.tasks[i].completed = !was;
                proof {
                    assert(task_flipped(old(self).tasks@[i as int], self.tasks@[i as int]));
                }
                return ;
            }
            i += 1;
        }
    }

    /// The position of the first chat with this id.
    fn find_chat(&self, chat_id: i64) -> (r: Option<usize>)
        ensures
            match r {
                Some(i) => first_chat_at(self.chats@, chat_id, i as int),
                None => !has_chat(self.chats@, chat_id),
            },
    {
        let mut i: usize = 0;
        while i < self.chats.len()
            invariant
                i <= self.chats@.len(),
                forall|j: int| 0 <= j < i ==> self.chats@[j].id != chat_id,
            decreases self.chats@.len() - i,
        {
            if self.chats[i].id == chat_id {
                return Some(i);
            }
            i += 1;
        }
        None
    }
}

/// `b` is `a` with the completion flag flipped and all else equal.
pub open spec fn task_flipped(a: Task, b: Task) -> bool {
    &&& b.id == a.id
    &&& b.user_name == a.user_name
    &&& b.text == a.text
    &&& b.created_at == a.created_at
    &&& b.completed == !a.completed
}

/// The name of the first chat with this id.
pub open spec fn chat_name_first(chats: Seq<Chat>, id: i64) -> Seq<char> {
    chats[first_chat_index(chats, id)].name@
}

/// The first position holding `id` (meaningful when `has_chat` holds).
pub open spec fn first_chat_index(chats: Seq<Chat>, id: i64) -> int {
    choose|i: int| #[trigger] first_chat_at(chats, id, i)
}

/// At most one position is the first one, so the witness pins the spec.
pub proof fn lemma_first_chat_at(chats: Seq<Chat>, id: i64, i: int)
    requires
        first_chat_at(chats, id, i),
    ensures
        first_chat_index(chats, id) == i,
        chat_name_first(chats, id) == chats[i].name@,
{
    let j = first_chat_index(chats, id);
    assert(first_chat_at(chats, id, j));
    if j < i {
        assert(chats[j].id != id);
        assert(false);
    }
    if i < j {
        assert(chats[i].id != id);
        assert(false);
    }
}

/// A successful `MessageSent` (or `FileSent`) response triggers an
/// immediate refetch of that chat; a failed one does not.
pub fn delivery_followup(chat_id: i64, success: bool) -> (r: Option<WsRequest>)
    ensures
        success ==> r == Some(WsRequest::GetMessages { chat_id }),
        !success ==> r is None,
{
    if success {
        Some(WsRequest::GetMessages { chat_id })
    } else {
        None
    }
}

/// Reads the recorded message count for a chat.
fn counts_get(entries: &Vec<CountEntry>, chat_id: i64) -> (r: Option<usize>)
    requires
        distinct_counts(entries@),
    ensures
        match r {
            Some(n) => counts_have(entries@, chat_id) && n == counts_at(entries@, chat_id),
            None => !counts_have(entries@, chat_id),
        },
{
    let mut i: usize = 0;
    while i < entries.len()
        invariant
            distinct_counts(entries@),
            i <= entries@.len(),
            forall|j: int| 0 <= j < i ==> entries@[j].chat_id != chat_id,
        decreases entries@.len() - i,
    {
        if entries[i].chat_id == chat_id {
            proof {
                lemma_count_entry_unique(entries@, chat_id, i as int);
            }
            return Some(entries[i].count);
        }
        i += 1;
    }
    None
}

/// Stores the message count for a chat, replacing any earlier record.
fn counts_upsert(entries: &mut Vec<CountEntry>, chat_id: i64, count: usize)
    requires
        distinct_counts(old(entries)@),
    ensures
        distinct_counts(final(entries)@),
        counts_have(final(entries)@, chat_id),
        counts_at(final(entries)@, chat_id) == count,
        forall|id: i64| id != chat_id
            ==> #[trigger] counts_have(final(entries)@, id) == counts_have(old(entries)@, id),
        forall|id: i64| id != chat_id && counts_have(old(entries)@, id)
            ==> #[trigger] counts_at(final(entries)@, id) == counts_at(old(entries)@, id),
{
    let mut i: usize = 0;
    while i < entries.len()
        invariant
            distinct_counts(entries@),
            entries@ == old(entries)@,
            i <= entries@.len(),
            forall|j: int| 0 <= j < i ==> entries@[j].chat_id != chat_id,
        decreases entries@.len() - i,
    {
        if entries[i].chat_id == chat_id {
            let ghost pre = entries@;
            entries[i] = CountEntry { chat_id, count };
            proof {
                lemma_count_entry_unique(pre, chat_id, i as int);
                lemma_count_entry_unique(entries@, chat_id, i as int);
                assert forall|id: i64| id != chat_id implies #[trigger] counts_have(entries@, id)
                    == counts_have(pre, id) by {
                    if counts_have(pre, id) {
                        let j = counts_index(pre, id);
                        lemma_count_entry_unique(pre, id, j);
                        assert(entries@[j].chat_id == id);
                    }
                    if counts_have(entries@, id) {
                        let j = counts_index(entries@, id);
                        lemma_count_entry_unique(entries@, id, j);
                        assert(pre[j].chat_id == id);
                    }
                }
                assert forall|id: i64| id != chat_id && counts_have(pre, id)
                    implies #[trigger] counts_at(entries@, id) == counts_at(pre, id) by {
                    let j = counts_index(pre, id);
                    lemma_count_entry_unique(pre, id, j);
                    assert(entries@[j].chat_id == id);
                    lemma_count_entry_unique(entries@, id, j);
                }
            }
            return ;
        }
        i += 1;
    }
    let ghost pre = entries@;
    entries.push(CountEntry { chat_id, count });
    proof {
        assert(!counts_have(pre, chat_id));
        lemma_count_entry_unique(entries@, chat_id, pre.len() as int);
        assert forall|id: i64| id != chat_id implies #[trigger] counts_have(entries@, id)
            == counts_have(pre, id) by {
            if counts_have(pre, id) {
                let j = counts_index(pre, id);
                lemma_count_entry_unique(pre, id, j);
                assert(entries@[j].chat_id == id);
            }
            if counts_have(entries@, id) {
                let j = counts_index(entries@, id);
                lemma_count_entry_unique(entries@, id, j);
                assert(j < pre.len());
                assert(pre[j].chat_id == id);
            }
        }
        assert forall|id: i64| id != chat_id && counts_have(pre, id)
            implies #[trigger] counts_at(entries@, id) == counts_at(pre, id) by {
            let j = counts_index(pre, id);
            lemma_count_entry_unique(pre, id, j);
            assert(entries@[j].chat_id == id);
            lemma_count_entry_unique(entries@, id, j);
        }
    }
}

/// The locally echoed copy of a just-sent message.
pub open spec fn echo_message(m: Message, id: i32, text: Seq<char>, now_ms: i64) -> bool {
    &&& m.id == id
    &&& m.sender_name@ == "You"@
    &&& m.text@ == text
    &&& m.is_outgoing
    &&& m.timestamp == now_ms
    &&& !m.is_file
    &&& m.file_name is None
}

/// `b` is `a` with the echo appended and the preview fields refreshed.
pub open spec fn chat_echoed(a: Chat, b: Chat, mid: i32, text: Seq<char>, now_ms: i64, label: Seq<char>) -> bool {
    &&& b.id == a.id
    &&& b.name == a.name
    &&& b.unread_count == a.unread_count
    &&& b.is_archived == a.is_archived
    &&& b.last_message@ == text
    &&& b.time@ == label
    &&& b.messages@.len() == a.messages@.len() + 1
    &&& b.messages@.subrange(0, a.messages@.len() as int) == a.messages@
    &&& echo_message(b.messages@.last(), mid, text, now_ms)
}

/// `b` is `a` with its message list replaced by `data`.
pub open spec fn chat_msgs_replaced(a: Chat, b: Chat, data: Seq<Message>) -> bool {
    &&& b.id == a.id
    &&& b.name == a.name
    &&& b.last_message == a.last_message
    &&& b.time == a.time
    &&& b.unread_count == a.unread_count
    &&& b.is_archived == a.is_archived
    &&& b.messages@ == data
}

/// `b` is `a` with `m` appended and the preview fields refreshed.
pub open spec fn chat_appended(a: Chat, b: Chat, m: Message, label: Seq<char>) -> bool {
    &&& b.id == a.id
    &&& b.name == a.name
    &&& b.unread_count == a.unread_count
    &&& b.is_archived == a.is_archived
    &&& b.messages@ == a.messages@.push(m)
    &&& b.last_message@ == m.text@
    &&& b.time@ == label
}

impl ClientState {
    /// The send action: when a chat is selected, appends a local echo of
    /// the text to it (if it is in the list), refreshes its preview, and
    /// hands back the `SendMessage` command to put on the wire.
    pub fn local_echo(&mut self, text: &str, now_ms: i64, clock_label: &str) -> (r: Option<
        WsRequest,
    >)
        requires
            old(self).wf(),
            old(self).next_message_id < i32::MAX,
        ensures
            final(self).wf(),
            final(self).selected_chat == old(self).selected_chat,
            final(self).tasks@ == old(self).tasks@,
            final(self).next_task_id == old(self).next_task_id,
            final(self).view_mode == old(self).view_mode,
            counts_unchanged(*old(self), *final(self)),
            match old(self).selected_chat {
                None => {
                    &&& r is None
                    &&& final(self).chats@ == old(self).chats@
                    &&& final(self).next_message_id == old(self).next_message_id
                },
                Some(id) => {
                    &&& (r matches Some(req) && req matches WsRequest::SendMessage {
                        chat_id: c,
                        text: t,
                    } && c == id && t@ == text@)
                    &&& final(self).next_message_id == old(self).next_message_id + 1
                    &&& if has_chat(old(self).chats@, id) {
                        exists|i: int|
                            {
                                &&& #[trigger] first_chat_at(old(self).chats@, id, i)
                                &&& final(self).chats@.len() == old(self).chats@.len()
                                &&& chat_echoed(
                                    old(self).chats@[i],
                                    final(self).chats@[i],
                                    old(self).next_message_id,
                                    text@,
                                    now_ms,
                                    clock_label@,
                                )
                                &&& forall|j: int| 0 <= j < old(self).chats@.len() && j != i
                                    ==> final(self).chats@[j] == old(self).chats@[j]
                            }
                    } else {
                        final(self).chats@ == old(self).chats@
                    }
                },
            },
    {
        let id = match self.selected_chat {
            Some(id) => id,
            None => {
                return None;
            },
        };
        let mid = self.next_message_id;
        self.next_message_id = mid + 1;
        match self.find_chat(id) {
            Some(i) => {
                let ghost pre = self.chats@;
                let msg = Message {
                    id: mid,
                    sender_name: "You".to_owned(),
                    text: text.to_owned(),
                    is_outgoing: true,
                    timestamp: now_ms,
                    is_file: false,
                    file_name: None,
                };
                self.chats[i].messages.push(msg);
                self.chats[i].last_message = text.to_owned();
                self.chats[i].time = clock_label.to_owned();
                proof {
                    assert(self.chats@[i as int].messages@.subrange(
                        0,
                        pre[i as int].messages@.len() as int,
                    ) =~= pre[i as int].messages@);
                    assert(chat_echoed(
                        pre[i as int],
                        self.chats@[i as int],
                        mid,
                        text@,
                        now_ms,
                        clock_label@,
                    ));
                }
            },
            None => {},
        }
        Some(WsRequest::SendMessage { chat_id: id, text: text.to_owned() })
    }

    /// A `Messages` response: stores the list on its chat, records the
    /// count, and reports whether the list grew since the last response
    /// for that chat (true as well for a first response).
    pub fn apply_messages(&mut self, chat_id: i64, data: Vec<Message>) -> (r: bool)
        requires
            old(self).wf(),
        ensures
            final(self).wf(),
            r == (!old(self).has_count(chat_id) || data@.len() > old(self).count_of(chat_id)),
            final(self).has_count(chat_id),
            final(self).count_of(chat_id) == data@.len(),
            forall|id: i64| id != chat_id
                ==> #[trigger] final(self).has_count(id) == old(self).has_count(id),
            forall|id: i64| id != chat_id && old(self).has_count(id)
                ==> #[trigger] final(self).count_of(id) == old(self).count_of(id),
            final(self).selected_chat == old(self).selected_chat,
            final(self).next_message_id == old(self).next_message_id,
            final(self).tasks@ == old(self).tasks@,
            final(self).next_task_id == old(self).next_task_id,
            final(self).view_mode == old(self).view_mode,
            if has_chat(old(self).chats@, chat_id) {
                exists|i: int|
                    {
                        &&& #[trigger] first_chat_at(old(self).chats@, chat_id, i)
                        &&& final(self).chats@.len() == old(self).chats@.len()
                        &&& chat_msgs_replaced(old(self).chats@[i], final(self).chats@[i], data@)
                        &&& forall|j: int| 0 <= j < old(self).chats@.len() && j != i
                            ==> final(self).chats@[j] == old(self).chats@[j]
                    }
            } else {
                final(self).chats@ == old(self).chats@
            },
    {
        let n = data.len();
        let has_new = match counts_get(&self.last_message_count, chat_id) {
            Some(c) => n > c,
            None => true,
        };
        match self.find_chat(chat_id) {
            Some(i) => {
                self.chats[i].messages = data;
            },
            None => {},
        }
        counts_upsert(&mut self.last_message_count, chat_id, n);
        has_new
    }

    /// A pushed `NewMessage` response: appends the message to its chat and
    /// refreshes the preview fields.
    pub fn apply_new_message(&mut self, chat_id: i64, message: Message, clock_label: &str)
        requires
            old(self).wf(),
        ensures
            final(self).wf(),
            final(self).selected_chat == old(self).selected_chat,
            final(self).next_message_id == old(self).next_message_id,
            final(self).tasks@ == old(self).tasks@,
            final(self).next_task_id == old(self).next_task_id,
            final(self).view_mode == old(self).view_mode,
            counts_unchanged(*old(self), *final(self)),
            if has_chat(old(self).chats@, chat_id) {
                exists|i: int|
                    {
                        &&& #[trigger] first_chat_at(old(self).chats@, chat_id, i)
                        &&& final(self).chats@.len() == old(self).chats@.len()
                        &&& chat_appended(
                            old(self).chats@[i],
                            final(self).chats@[i],
                            message,
                            clock_label@,
                        )
                        &&& forall|j: int| 0 <= j < old(self).chats@.len() && j != i
                            ==> final(self).chats@[j] == old(self).chats@[j]
                    }
            } else {
                final(self).chats@ == old(self).chats@
            },
    {
        match self.find_chat(chat_id) {
            Some(i) => {
                let last = message.text.clone();
                self.chats[i].messages.push(message);
                self.chats[i].last_message = last;
                self.chats[i].time = clock_label.to_owned();
            },
            None => {},
        }
    }
}

/// Inserting anywhere adds exactly one copy to the multiset.
proof fn lemma_insert_to_multiset(s: Seq<Message>, j: int, m: Message)
    requires
        0 <= j <= s.len(),
    ensures
        s.insert(j, m).to_multiset() == s.to_multiset().insert(m),
{
    broadcast use vstd::seq_lib::group_to_multiset_ensures;

    let t = s.insert(j, m);
    assert(t.remove(j) =~= s);
    assert(t[j] == m);
    assert(t.contains(m));
    assert(t.to_multiset().count(m) > 0);
    assert(s.to_multiset() =~= t.to_multiset().remove(m));
    assert(t.to_multiset() =~= s.to_multiset().insert(m)) by {
        assert(t.to_multiset().remove(m).insert(m) =~= t.to_multiset());
    }
}

/// Sorts messages by timestamp, oldest first, keeping exactly the same
/// multiset of records.
pub fn sort_by_timestamp(msgs: &Vec<Message>) -> (r: Vec<Message>)
    ensures
        chronological(r@),
        r@.to_multiset() == msgs@.to_multiset(),
{
    broadcast use vstd::seq_lib::group_to_multiset_ensures;

    let mut out: Vec<Message> = Vec::new();
    let mut i: usize = 0;
    while i < msgs.len()
        invariant
            i <= msgs@.len(),
            chronological(out@),
            out@.to_multiset() == msgs@.subrange(0, i as int).to_multiset(),
        decreases msgs@.len() - i,
    {
        let m = msgs[i].clone();
        let mut j: usize = 0;
        while j < out.len() && out[j].timestamp <= m.timestamp
            invariant
                j <= out@.len(),
                forall|k: int| 0 <= k < j ==> out@[k].timestamp <= m.timestamp,
            decreases out@.len() - j,
        {
            j += 1;
        }
        let ghost pre = out@;
        out.insert(j, m);
        proof {
            broadcast use vstd::seq_lib::group_to_multiset_ensures;

            assert forall|a: int, b: int| 0 <= a < b < out@.len() implies out@[a].timestamp
                <= out@[b].timestamp by {
                if b < j {
                    assert(out@[a] == pre[a] && out@[b] == pre[b]);
                } else if a > j {
                    assert(out@[a] == pre[a - 1] && out@[b] == pre[b - 1]);
                } else if a < j && b == j {
                    assert(out@[a] == pre[a]);
                } else if a == j && b > j {
                    assert(out@[b] == pre[b - 1]);
                    assert(pre[j as int].timestamp > m.timestamp);
                    assert(pre[b - 1].timestamp >= pre[j as int].timestamp);
                } else if a < j && b > j {
                    assert(out@[a] == pre[a] && out@[b] == pre[b - 1]);
                    assert(pre[j as int].timestamp > m.timestamp);
                }
            }
            lemma_insert_to_multiset(pre, j as int, m);
            assert(msgs@.subrange(0, i + 1 as int).drop_last() =~= msgs@.subrange(0, i as int));
            assert(msgs@.subrange(0, i + 1 as int).last() == msgs@[i as int]);
            assert(msgs@.subrange(0, i + 1 as int).to_multiset() =~= msgs@.subrange(
                0,
                i as int,
            ).to_multiset().insert(msgs@[i as int])) by {
                let p = msgs@.subrange(0, i + 1 as int);
                assert(p =~= p.drop_last().push(p.last()));
                assert(p.drop_last().push(p.last()).to_multiset() =~= p.drop_last().to_multiset().insert(
                    p.last(),
                ));
            }
        }
        i += 1;
    }
    proof {
        assert(msgs@.subrange(0, msgs@.len() as int) =~= msgs@);
    }
    out
}

/// Whether a chat passes the list filter: the archive toggle must match,
/// and when a search query is present its folded form must occur in the
/// folded chat name.
pub open spec fn chat_passes(c: Chat, query_folded: Seq<char>, show_archived: bool) -> bool {
    &&& (query_folded.len() == 0 || has_substring(lower_of(c.name@), query_folded))
    &&& c.is_archived == show_archived
}

impl ClientState {
    /// The messages of the selected chat, sorted chronologically; empty
    /// when nothing is selected or the selection is not in the list.
    pub fn sorted_messages(&self) -> (r: Vec<Message>)
        ensures
            match self.selected_chat {
                None => r@.len() == 0,
                Some(id) => if has_chat(self.chats@, id) {
                    exists|i: int|
                        {
                            &&& #[trigger] first_chat_at(self.chats@, id, i)
                            &&& chronological(r@)
                            &&& r@.to_multiset() == self.chats@[i].messages@.to_multiset()
                        }
                } else {
                    r@.len() == 0
                },
            },
    {
        let id = match self.selected_chat {
            Some(id) => id,
            None => {
                return Vec::new();
            },
        };
        match self.find_chat(id) {
            Some(i) => sort_by_timestamp(&self.chats[i].messages),
            None => Vec::new(),
        }
    }

    /// The chat-list filter: keeps, in order, the chats whose archive flag
    /// matches the toggle and whose name contains the query, compared
    /// case-insensitively.
    pub fn filter_chats(&self, query: &str, show_archived: bool) -> (r: Vec<Chat>)
        ensures
            ({
                let flt = self.chats@.filter(
                    |c: Chat| chat_passes(c, lower_of(query@), show_archived),
                );
                &&& r@.len() == flt.len()
                &&& forall|i: int| 0 <= i < flt.len() ==> chat_like(#[trigger] r@[i], flt[i])
            }),
    {
        let ghost pred = |c: Chat| chat_passes(c, lower_of(query@), show_archived);
        let query_folded = to_lower(query);
        let mut r: Vec<Chat> = Vec::new();
        let mut i: usize = 0;
        while i < self.chats.len()
            invariant
                i <= self.chats@.len(),
                query_folded@ == lower_of(query@),
                r@.len() == self.chats@.subrange(0, i as int).filter(pred).len(),
                forall|k: int| 0 <= k < r@.len()
                    ==> chat_like(#[trigger] r@[k], self.chats@.subrange(0, i as int).filter(pred)[k]),
                pred == (|c: Chat| chat_passes(c, lower_of(query@), show_archived)),
            decreases self.chats@.len() - i,
        {
            let c = &self.chats[i];
            let keeps = if c.is_archived == show_archived {
                if query_folded.as_str().is_empty() {
                    true
                } else {
                    let name_folded = to_lower(c.name.as_str());
                    contains_sub(name_folded.as_str(), query_folded.as_str())
                }
            } else {
                false
            };
            proof {
                reveal(Seq::filter);
                assert(keeps == pred(self.chats@[i as int]));
                let p = self.chats@.subrange(0, i + 1 as int);
                assert(p.drop_last() =~= self.chats@.subrange(0, i as int));
                assert(p.last() == self.chats@[i as int]);
                if pred(p.last()) {
                    assert(p.filter(pred) == p.drop_last().filter(pred).push(p.last()));
                } else {
                    assert(p.filter(pred) == p.drop_last().filter(pred));
                }
            }
            if keeps {
                r.push(self.chats[i].clone());
            }
            i += 1;
        }
        proof {
            assert(self.chats@.subrange(0, self.chats@.len() as int) =~= self.chats@);
        }
        r
    }

    /// How many chats are archived.
    pub fn archived_count(&self) -> (r: usize)
        ensures
            r == self.chats@.filter(|c: Chat| c.is_archived).len(),
    {
        let ghost pred = |c: Chat| c.is_archived;
        let mut r: usize = 0;
        let mut i: usize = 0;
        while i < self.chats.len()
            invariant
                i <= self.chats@.len(),
                r == self.chats@.subrange(0, i as int).filter(pred).len(),
                pred == (|c: Chat| c.is_archived),
            decreases self.chats@.len() - i,
        {
            proof {
                reveal(Seq::filter);
                let p = self.chats@.subrange(0, i + 1 as int);
                assert(p.drop_last() =~= self.chats@.subrange(0, i as int));
                assert(p.last() == self.chats@[i as int]);
                if pred(p.last()) {
                    assert(p.filter(pred) == p.drop_last().filter(pred).push(p.last()));
                } else {
                    assert(p.filter(pred) == p.drop_last().filter(pred));
                }
                self.chats@.subrange(0, i as int).lemma_filter_len(pred);
            }
            if self.chats[i].is_archived {
                r = r + 1;
            }
            i += 1;
        }
        proof {
            assert(self.chats@.subrange(0, self.chats@.len() as int) =~= self.chats@);
        }
        r
    }
}

/// Which pane of the sign-in form the client shows.
#[derive(Clone, Copy, Debug, PartialEq, Eq, Structural)]
pub enum AuthStep {
    Phone,
    Code,
    Authenticated,
}

/// After the code-request call: a successful request moves the form to
/// the code pane; a failed one stays put (the error is shown instead).
pub fn auth_after_code_request(step: AuthStep, ok: bool) -> (r: AuthStep)
    ensures
        r == if ok {
            AuthStep::Code
        } else {
            step
        },
{
    if ok {
        AuthStep::Code
    } else {
        step
    }
}

/// After the verify call: only a successful response that carries a
/// session identifier authenticates the form.
pub fn auth_after_verify(step: AuthStep, ok: bool, got_session: bool) -> (r: AuthStep)
    ensures
        r == if ok && got_session {
            AuthStep::Authenticated
        } else {
            step
        },
{
    if ok && got_session {
        AuthStep::Authenticated
    } else {
        step
    }
}

} // verus!

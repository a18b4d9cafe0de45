//! The session and auth manager.
//!
//! One `SessionManager` owns the process's authentication state and the
//! chat index table.  It drives the login state machine
//! `Unauthenticated -> CodeRequested -> {Authenticated | PasswordPending |
//! Rejected}` for each phone, keyed by phone number, and it maps small
//! stable chat ids to opaque provider conversation handles.
//!
//! All provider calls happen outside the crate.  Each multi-step operation
//! is split at its network boundary: the `*_begin` step consumes local
//! state and hands out the token handle the caller must present to the
//! provider, and the `*_finish` step applies the provider's outcome.  The
//! transition relation of every step is a public spec function, so that
//! laws about whole flows can be stated and proved over sequences of
//! steps.

use vstd::prelude::*;
use crate::errors::AuthError;
use crate::provider::{
    CodeRequestOutcome, DialogInfo, DialogMeta, MessageInfo, SignInOutcome, PasswordOutcome,
};
use crate::tables::{
    TableEntry, distinct_keys, table_has, table_val, table_get, table_remove, table_upsert,
};
use crate::types::{Chat, Message};

verus! {

/// Relies on `uuid::Uuid::new_v4` and its `Display` form: a fresh random
/// v4 identifier rendered in the hyphenated format, which is always 36
/// characters long.  The value is random, so nothing more is promised.
#[verifier::external_body]
fn mint_session_id() -> (r: String)
    ensures
        r@.len() == 36,
{
    uuid::Uuid::new_v4().to_string()
}

/// The one-per-process session state.
pub struct SessionManager {
    /// Outstanding login tokens, at most one per phone.
    pending_login: Vec<TableEntry<u64>>,
    /// Outstanding password tokens, at most one per phone.
    pending_password: Vec<TableEntry<u64>>,
    /// Issued session identifiers and the phone each one authenticated.
    sessions: Vec<TableEntry<String>>,
    /// Chat id `i` (1-based) maps to the handle at position `i - 1`.
    /// Dialog fetches overwrite a prefix and never prune the tail.
    chat_index: Vec<u64>,
}

impl SessionManager {
    pub closed spec fn wf(&self) -> bool {
        &&& distinct_keys(self.pending_login@)
        &&& distinct_keys(self.pending_password@)
        &&& distinct_keys(self.sessions@)
        &&& self.chat_index@.len() <= i64::MAX
    }

    pub closed spec fn has_pending_login(&self, phone: Seq<char>) -> bool {
        table_has(self.pending_login@, phone)
    }

    pub closed spec fn pending_login_token(&self, phone: Seq<char>) -> u64 {
        table_val(self.pending_login@, phone)
    }

    pub closed spec fn has_pending_password(&self, phone: Seq<char>) -> bool {
        table_has(self.pending_password@, phone)
    }

    pub closed spec fn pending_password_token(&self, phone: Seq<char>) -> u64 {
        table_val(self.pending_password@, phone)
    }

    pub closed spec fn has_session(&self, sid: Seq<char>) -> bool {
        table_has(self.sessions@, sid)
    }

    pub closed spec fn session_phone(&self, sid: Seq<char>) -> Seq<char> {
        table_val(self.sessions@, sid)@
    }

    /// How many chat ids the index table can resolve.
    pub closed spec fn chat_count(&self) -> int {
        self.chat_index@.len() as int
    }

    pub open spec fn chat_known(&self, chat_id: int) -> bool {
        1 <= chat_id <= self.chat_count()
    }

    pub closed spec fn chat_handle(&self, chat_id: int) -> u64 {
        self.chat_index@[chat_id - 1]
    }
}

// ---------------------------------------------------------------------------
// Frame helpers: which state components a step leaves alone.

pub open spec fn logins_unchanged(pre: SessionManager, post: SessionManager) -> bool {
    &&& forall|q: Seq<char>| #[trigger] post.has_pending_login(q) == pre.has_pending_login(q)
    &&& forall|q: Seq<char>| pre.has_pending_login(q)
        ==> #[trigger] post.pending_login_token(q) == pre.pending_login_token(q)
}

pub open spec fn passwords_unchanged(pre: SessionManager, post: SessionManager) -> bool {
    &&& forall|q: Seq<char>| #[trigger] post.has_pending_password(q) == pre.has_pending_password(q)
    &&& forall|q: Seq<char>| pre.has_pending_password(q)
        ==> #[trigger] post.pending_password_token(q) == pre.pending_password_token(q)
}

pub open spec fn sessions_unchanged(pre: SessionManager, post: SessionManager) -> bool {
    &&& forall|q: Seq<char>| #[trigger] post.has_session(q) == pre.has_session(q)
    &&& forall|q: Seq<char>| pre.has_session(q)
        ==> #[trigger] post.session_phone(q) == pre.session_phone(q)
}

pub open spec fn chats_unchanged(pre: SessionManager, post: SessionManager) -> bool {
    &&& post.chat_count() == pre.chat_count()
    &&& forall|id: int| pre.chat_known(id) ==> #[trigger] post.chat_handle(id) == pre.chat_handle(id)
}

// How a step changes exactly one key of one map.

pub open spec fn logins_set(pre: SessionManager, post: SessionManager, phone: Seq<char>, token: u64) -> bool {
    &&& post.has_pending_login(phone)
    &&& post.pending_login_token(phone) == token
    &&& forall|q: Seq<char>| q != phone
        ==> #[trigger] post.has_pending_login(q) == pre.has_pending_login(q)
    &&& forall|q: Seq<char>| q != phone && pre.has_pending_login(q)
        ==> #[trigger] post.pending_login_token(q) == pre.pending_login_token(q)
}

pub open spec fn logins_removed(pre: SessionManager, post: SessionManager, phone: Seq<char>) -> bool {
    &&& !post.has_pending_login(phone)
    &&& forall|q: Seq<char>| q != phone
        ==> #[trigger] post.has_pending_login(q) == pre.has_pending_login(q)
    &&& forall|q: Seq<char>| q != phone && pre.has_pending_login(q)
        ==> #[trigger] post.pending_login_token(q) == pre.pending_login_token(q)
}

pub open spec fn passwords_set(pre: SessionManager, post: SessionManager, phone: Seq<char>, token: u64) -> bool {
    &&& post.has_pending_password(phone)
    &&& post.pending_password_token(phone) == token
    &&& forall|q: Seq<char>| q != phone
        ==> #[trigger] post.has_pending_password(q) == pre.has_pending_password(q)
    &&& forall|q: Seq<char>| q != phone && pre.has_pending_password(q)
        ==> #[trigger] post.pending_password_token(q) == pre.pending_password_token(q)
}

pub open spec fn passwords_removed(pre: SessionManager, post: SessionManager, phone: Seq<char>) -> bool {
    &&& !post.has_pending_password(phone)
    &&& forall|q: Seq<char>| q != phone
        ==> #[trigger] post.has_pending_password(q) == pre.has_pending_password(q)
    &&& forall|q: Seq<char>| q != phone && pre.has_pending_password(q)
        ==> #[trigger] post.pending_password_token(q) == pre.pending_password_token(q)
}

/// A fresh session identifier `sid` now maps to `phone`; every other
/// session is untouched.  Identifiers are rendered hyphenated UUIDs, so
/// they are 36 characters long — in particular, never empty.
pub open spec fn session_minted(pre: SessionManager, post: SessionManager, phone: Seq<char>, sid: Seq<char>) -> bool {
    &&& sid.len() == 36
    &&& post.has_session(sid)
    &&& post.session_phone(sid) == phone
    &&& forall|q: Seq<char>| q != sid ==> #[trigger] post.has_session(q) == pre.has_session(q)
    &&& forall|q: Seq<char>| q != sid && pre.has_session(q)
        ==> #[trigger] post.session_phone(q) == pre.session_phone(q)
}

// ---------------------------------------------------------------------------
// Step relations.

/// What a code request returns, given the first provider outcome and — only
/// after a transient fault — the outcome of the single retry.
pub open spec fn code_request_verdict(
    first: CodeRequestOutcome,
    second: Option<CodeRequestOutcome>,
) -> Result<u64, AuthError> {
    match first {
        CodeRequestOutcome::Issued(t) => Ok(t),
        CodeRequestOutcome::Fault => Err(AuthError::ProviderRejected),
        CodeRequestOutcome::TransientFault => match second {
            Some(CodeRequestOutcome::Issued(t)) => Ok(t),
            _ => Err(AuthError::TransportError),
        },
    }
}

pub open spec fn request_code_rel(
    pre: SessionManager,
    post: SessionManager,
    phone: Seq<char>,
    first: CodeRequestOutcome,
    second: Option<CodeRequestOutcome>,
    r: Result<(), AuthError>,
) -> bool {
    &&& post.wf()
    &&& passwords_unchanged(pre, post)
    &&& sessions_unchanged(pre, post)
    &&& chats_unchanged(pre, post)
    &&& match code_request_verdict(first, second) {
        Ok(t) => r is Ok && logins_set(pre, post, phone, t),
        Err(e) => r == Err::<(), AuthError>(e) && logins_unchanged(pre, post),
    }
}

pub open spec fn verify_code_begin_rel(
    pre: SessionManager,
    post: SessionManager,
    phone: Seq<char>,
    r: Result<u64, AuthError>,
) -> bool {
    &&& post.wf()
    &&& passwords_unchanged(pre, post)
    &&& sessions_unchanged(pre, post)
    &&& chats_unchanged(pre, post)
    &&& if pre.has_pending_login(phone) {
        r == Ok::<u64, AuthError>(pre.pending_login_token(phone))
            && logins_removed(pre, post, phone)
    } else {
        r == Err::<u64, AuthError>(AuthError::NoPendingAuth) && logins_unchanged(pre, post)
    }
}

pub open spec fn verify_code_finish_rel(
    pre: SessionManager,
    post: SessionManager,
    phone: Seq<char>,
    outcome: SignInOutcome,
    r: Result<String, AuthError>,
) -> bool {
    &&& post.wf()
    &&& logins_unchanged(pre, post)
    &&& chats_unchanged(pre, post)
    &&& match outcome {
        SignInOutcome::SignedIn => {
            &&& passwords_unchanged(pre, post)
            &&& match r {
                Ok(sid) => session_minted(pre, post, phone, sid@),
                Err(_) => false,
            }
        },
        SignInOutcome::PasswordNeeded(t) => {
            &&& sessions_unchanged(pre, post)
            &&& passwords_set(pre, post, phone, t)
            &&& r == Err::<String, AuthError>(AuthError::PasswordRequired)
        },
        SignInOutcome::SignUpNeeded => {
            &&& passwords_unchanged(pre, post)
            &&& sessions_unchanged(pre, post)
            &&& r == Err::<String, AuthError>(AuthError::SignUpRequired)
        },
        SignInOutcome::Rejected => {
            &&& passwords_unchanged(pre, post)
            &&& sessions_unchanged(pre, post)
            &&& r == Err::<String, AuthError>(AuthError::ProviderRejected)
        },
    }
}

pub open spec fn verify_password_begin_rel(
    pre: SessionManager,
    post: SessionManager,
    phone: Seq<char>,
    r: Result<u64, AuthError>,
) -> bool {
    &&& post.wf()
    &&& logins_unchanged(pre, post)
    &&& sessions_unchanged(pre, post)
    &&& chats_unchanged(pre, post)
    &&& if pre.has_pending_password(phone) {
        r == Ok::<u64, AuthError>(pre.pending_password_token(phone))
            && passwords_removed(pre, post, phone)
    } else {
        r == Err::<u64, AuthError>(AuthError::NoPendingAuth) && passwords_unchanged(pre, post)
    }
}

pub open spec fn verify_password_finish_rel(
    pre: SessionManager,
    post: SessionManager,
    phone: Seq<char>,
    outcome: PasswordOutcome,
    r: Result<String, AuthError>,
) -> bool {
    &&& post.wf()
    &&& logins_unchanged(pre, post)
    &&& passwords_unchanged(pre, post)
    &&& chats_unchanged(pre, post)
    &&& match outcome {
        PasswordOutcome::Accepted => match r {
            Ok(sid) => session_minted(pre, post, phone, sid@),
            Err(_) => false,
        },
        PasswordOutcome::Rejected => {
            sessions_unchanged(pre, post) && r == Err::<String, AuthError>(
                AuthError::ProviderRejected,
            )
        },
    }
}

// ---------------------------------------------------------------------------
// Projections of fetched provider data.

/// How one fetched dialog at 1-based position `id` projects to a summary.
pub open spec fn chat_projects(c: Chat, d: DialogInfo, id: int) -> bool {
    &&& c.id == id
    &&& c.name@ == match d.name {
        Some(n) => n@,
        None => "Unknown"@,
    }
    &&& c.last_message@ == match d.last_message {
        Some(m) => m@,
        None => Seq::<char>::empty(),
    }
    &&& c.time@ == Seq::<char>::empty()
    &&& match d.meta {
        DialogMeta::Known { unread_count, folder_id } => {
            &&& c.unread_count == unread_count
            &&& c.is_archived == (match folder_id {
                Some(f) => f,
                None => 0,
            } == 1)
        },
        DialogMeta::Other => c.unread_count == 0 && !c.is_archived,
    }
    &&& c.messages@ == Seq::<Message>::empty()
}

/// How one fetched message projects to a client message record.
pub open spec fn message_projects(m: Message, f: MessageInfo) -> bool {
    &&& m.id == f.id
    &&& m.text == f.text
    &&& m.sender_name@ == match f.sender_name {
        Some(n) => n@,
        None => "Unknown"@,
    }
    &&& m.is_outgoing == f.outgoing
    &&& m.timestamp == f.timestamp
    &&& !m.is_file
    &&& m.file_name is None
}

/// What resolving a chat id against the index returns.
pub open spec fn resolve_chat_spec(m: SessionManager, chat_id: int) -> Result<u64, AuthError> {
    if m.chat_known(chat_id) {
        Ok(m.chat_handle(chat_id))
    } else {
        Err(AuthError::ChatNotFound)
    }
}

/// `msgs` is the first `limit` records of `fetched` (fewer when the fetch
/// was shorter), reversed, each projected to a client message record.
pub open spec fn messages_projection(fetched: Seq<MessageInfo>, limit: int, msgs: Seq<Message>) -> bool {
    let k = if limit <= fetched.len() {
        limit
    } else {
        fetched.len() as int
    };
    &&& msgs.len() == k
    &&& forall|i: int| 0 <= i < k ==> message_projects(#[trigger] msgs[i], fetched[k - 1 - i])
}

pub open spec fn get_dialogs_rel(
    pre: SessionManager,
    post: SessionManager,
    fetched: Seq<DialogInfo>,
    r: Seq<Chat>,
) -> bool {
    &&& post.wf()
    &&& logins_unchanged(pre, post)
    &&& passwords_unchanged(pre, post)
    &&& sessions_unchanged(pre, post)
    &&& post.chat_count() == if fetched.len() >= pre.chat_count() {
        fetched.len() as int
    } else {
        pre.chat_count()
    }
    &&& forall|i: int| 0 <= i < fetched.len() ==> #[trigger] post.chat_handle(i + 1) == fetched[i].handle
    &&& forall|id: int| fetched.len() < id <= pre.chat_count()
        ==> #[trigger] post.chat_handle(id) == pre.chat_handle(id)
    &&& r.len() == fetched.len()
    &&& forall|i: int| 0 <= i < fetched.len() ==> chat_projects(#[trigger] r[i], fetched[i], i + 1)
}

fn project_dialog(d: DialogInfo, id: i64) -> (c: Chat)
    ensures
        chat_projects(c, d, id as int),
{
    let name: String = match d.name {
        Some(n) => n,
        None => "Unknown".to_owned(),
    };
    let last_message: String = match d.last_message {
        Some(m) => m,
        None => String::new(),
    };
    let mut unread: i32 = 0;
    let mut archived: bool = false;
    match d.meta {
        DialogMeta::Known { unread_count, folder_id } => {
            unread = unread_count;
            let folder: i32 = match folder_id {
                Some(f) => f,
                None => 0,
            };
            archived = folder == 1;
        }
        DialogMeta::Other => {}
    }
    Chat {
        id,
        name,
        last_message,
        time: String::new(),
        unread_count: unread,
        is_archived: archived,
        messages: Vec::new(),
    }
}

fn project_message(f: MessageInfo) -> (m: Message)
    ensures
        message_projects(m, f),
{
    let sender_name: String = match f.sender_name {
        Some(n) => n,
        None => "Unknown".to_owned(),
    };
    Message {
        id: f.id,
        sender_name,
        text: f.text,
        is_outgoing: f.outgoing,
        timestamp: f.timestamp,
        is_file: false,
        file_name: None,
    }
}

// ---------------------------------------------------------------------------
// The operations.

impl SessionManager {
    pub fn new() -> (r: Self)
        ensures
            r.wf(),
            forall|p: Seq<char>| !(#[trigger] r.has_pending_login(p)),
            forall|p: Seq<char>| !(#[trigger] r.has_pending_password(p)),
            forall|q: Seq<char>| !(#[trigger] r.has_session(q)),
            r.chat_count() == 0,
    {
        SessionManager {
            pending_login: Vec::new(),
            pending_password: Vec::new(),
            sessions: Vec::new(),
            chat_index: Vec::new(),
        }
    }

    /// Asks the provider for a login code.  `first` is the outcome of the
    /// provider call; only when it was the transient session-restart fault
    /// does the caller retry once and pass the retry's outcome as `second`.
    /// On success the issued token replaces any pending token for the
    /// phone; on failure no state changes.
    pub fn request_code(
        &mut self,
        phone: &str,
        first: CodeRequestOutcome,
        second: Option<CodeRequestOutcome>,
    ) -> (r: Result<(), AuthError>)
        requires
            old(self).wf(),
            second is Some <==> first is TransientFault,
        ensures
            request_code_rel(*old(self), *final(self), phone@, first, second, r),
    {
        let effective = if matches!(first, CodeRequestOutcome::TransientFault) {
            second.unwrap()
        } else {
            first
        };
        match effective {
            CodeRequestOutcome::Issued(t) => {
                let key = phone.to_owned();
                table_upsert(&mut self.pending_login, &key, t);
                Ok(())
            }
            _ => {
                if matches!(first, CodeRequestOutcome::TransientFault) {
                    Err(AuthError::TransportError)
                } else {
                    Err(AuthError::ProviderRejected)
                }
            }
        }
    }

    /// First half of code verification: consumes the pending login token
    /// for `phone` — the token is spent whatever the provider will say —
    /// and hands it out for the sign-in call.
    pub fn verify_code_begin(&mut self, phone: &str) -> (r: Result<u64, AuthError>)
        requires
            old(self).wf(),
        ensures
            verify_code_begin_rel(*old(self), *final(self), phone@, r),
    {
        let key = phone.to_owned();
        match table_remove(&mut self.pending_login, &key) {
            Some(t) => Ok(t),
            None => Err(AuthError::NoPendingAuth),
        }
    }

    /// Second half of code verification: applies the provider's sign-in
    /// outcome.  Success mints a fresh session identifier; a
    /// password-required outcome stores the password token and signals the
    /// caller to continue with the password step; everything else fails
    /// terminally with no state retained.
    pub fn verify_code_finish(&mut self, phone: &str, outcome: SignInOutcome) -> (r: Result<
        String,
        AuthError,
    >)
        requires
            old(self).wf(),
        ensures
            verify_code_finish_rel(*old(self), *final(self), phone@, outcome, r),
    {
        match outcome {
            SignInOutcome::SignedIn => {
                let sid = mint_session_id();
                table_upsert(&mut self.sessions, &sid, phone.to_owned());
                Ok(sid)
            }
            SignInOutcome::PasswordNeeded(t) => {
                let key = phone.to_owned();
                table_upsert(&mut self.pending_password, &key, t);
                Err(AuthError::PasswordRequired)
            }
            SignInOutcome::SignUpNeeded => Err(AuthError::SignUpRequired),
            SignInOutcome::Rejected => Err(AuthError::ProviderRejected),
        }
    }

    /// First half of the password step: consumes the pending password
    /// token for `phone` and hands it out for the check-password call.
    pub fn verify_password_begin(&mut self, phone: &str) -> (r: Result<u64, AuthError>)
        requires
            old(self).wf(),
        ensures
            verify_password_begin_rel(*old(self), *final(self), phone@, r),
    {
        let key = phone.to_owned();
        match table_remove(&mut self.pending_password, &key) {
            Some(t) => Ok(t),
            None => Err(AuthError::NoPendingAuth),
        }
    }

    /// Second half of the password step: applies the provider's outcome.
    /// The consumed password token is never restored.
    pub fn verify_password_finish(&mut self, phone: &str, outcome: PasswordOutcome) -> (r: Result<
        String,
        AuthError,
    >)
        requires
            old(self).wf(),
        ensures
            verify_password_finish_rel(*old(self), *final(self), phone@, outcome, r),
    {
        match outcome {
            PasswordOutcome::Accepted => {
                let sid = mint_session_id();
                table_upsert(&mut self.sessions, &sid, phone.to_owned());
                Ok(sid)
            }
            PasswordOutcome::Rejected => Err(AuthError::ProviderRejected),
        }
    }

    /// The phone a session identifier authenticated, if any.
    pub fn get_session(&self, session_id: &str) -> (r: Option<&String>)
        requires
            self.wf(),
        ensures
            match r {
                Some(p) => self.has_session(session_id@) && p@ == self.session_phone(session_id@),
                None => !self.has_session(session_id@),
            },
    {
        let key = session_id.to_owned();
        table_get(&self.sessions, &key)
    }

    /// Records a full dialog fetch: position `i` (0-based) of the fetch is
    /// assigned chat id `i + 1`, overwriting the index prefix; entries of a
    /// larger earlier fetch stay resolvable.  Returns the projected
    /// summaries in fetch order.
    pub fn get_dialogs(&mut self, fetched: &Vec<DialogInfo>) -> (r: Vec<Chat>)
        requires
            old(self).wf(),
            fetched@.len() <= i64::MAX,
        ensures
            get_dialogs_rel(*old(self), *final(self), fetched@, r@),
    {
        let mut chats: Vec<Chat> = Vec::new();
        let mut index: Vec<u64> = Vec::new();
        let mut i: usize = 0;
        while i < fetched.len()
            invariant
                i <= fetched@.len(),
                fetched@.len() <= i64::MAX,
                index@.len() == i,
                chats@.len() == i,
                forall|j: int| 0 <= j < i ==> #[trigger] index@[j] == fetched@[j].handle,
                forall|j: int| 0 <= j < i ==> chat_projects(#[trigger] chats@[j], fetched@[j], j + 1),
            decreases fetched@.len() - i,
        {
            let d = fetched[i].clone();
            index.push(d.handle);
            chats.push(project_dialog(d, (i as i64) + 1));
            i += 1;
        }
        let mut j: usize = index.len();
        while j < self.chat_index.len()
            invariant
                fetched@.len() <= j,
                j <= self.chat_index@.len() || j == fetched@.len(),
                self.chat_index@.len() <= i64::MAX,
                index@.len() == j,
                forall|k: int| 0 <= k < fetched@.len() ==> #[trigger] index@[k] == fetched@[k].handle,
                forall|k: int| fetched@.len() <= k < j ==> #[trigger] index@[k] == self.chat_index@[k],
            decreases self.chat_index@.len() - j,
        {
            index.push(self.chat_index[j]);
            j += 1;
        }
        self.chat_index = index;
        chats
    }

    /// Resolves a chat id through the index table.
    pub fn resolve_chat(&self, chat_id: i64) -> (r: Result<u64, AuthError>)
        requires
            self.wf(),
        ensures
            r == resolve_chat_spec(*self, chat_id as int),
    {
        if 1 <= chat_id && chat_id <= self.chat_index.len() as i64 {
            Ok(self.chat_index[(chat_id - 1) as usize])
        } else {
            Err(AuthError::ChatNotFound)
        }
    }

    /// The read-access half of sending: fails with `ChatNotFound` when the
    /// id is not in the index, otherwise hands out the conversation handle
    /// the caller must deliver `_text` to.
    pub fn send_message_begin(&self, chat_id: i64, _text: &str) -> (r: Result<u64, AuthError>)
        requires
            self.wf(),
        ensures
            r == resolve_chat_spec(*self, chat_id as int),
    {
        self.resolve_chat(chat_id)
    }

    /// Projects a message fetch for `chat_id`.  `fetched` is what the
    /// provider returned, newest first; at most `limit` records are kept
    /// and the result is reversed into chronological order.
    pub fn get_messages(&self, chat_id: i64, limit: usize, fetched: &Vec<MessageInfo>) -> (r:
        Result<Vec<Message>, AuthError>)
        requires
            self.wf(),
        ensures
            !self.chat_known(chat_id as int) ==> r == Err::<Vec<Message>, AuthError>(
                AuthError::ChatNotFound,
            ),
            self.chat_known(chat_id as int) ==> match r {
                Ok(msgs) => {
                    &&& messages_projection(fetched@, limit as int, msgs@)
                    &&& msgs@.len() <= limit
                    &&& crate::provider::newest_first(fetched@) ==> crate::types::chronological(
                        msgs@,
                    )
                },
                Err(_) => false,
            },
    {
        if self.resolve_chat(chat_id).is_err() {
            return Err(AuthError::ChatNotFound);
        }
        let k: usize = if limit <= fetched.len() {
            limit
        } else {
            fetched.len()
        };
        let mut msgs: Vec<Message> = Vec::new();
        let mut i: usize = 0;
        while i < k
            invariant
                i <= k,
                k <= fetched@.len(),
                msgs@.len() == i,
                forall|j: int| 0 <= j < i
                    ==> message_projects(#[trigger] msgs@[j], fetched@[k - 1 - j]),
            decreases k - i,
        {
            msgs.push(project_message(fetched[k - 1 - i].clone()));
            i += 1;
        }
        proof {
            if crate::provider::newest_first(fetched@) {
                assert forall|a: int, b: int| 0 <= a < b < msgs@.len()
                    implies msgs@[a].timestamp <= msgs@[b].timestamp by {
                    assert(message_projects(msgs@[a], fetched@[k - 1 - a]));
                    assert(message_projects(msgs@[b], fetched@[k - 1 - b]));
                }
            }
        }
        Ok(msgs)
    }
}

} // verus!

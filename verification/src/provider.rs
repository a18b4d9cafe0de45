//! Plain-value images of what the messaging provider hands back.
//!
//! The provider is an external collaborator reached over the network; its
//! conversation and token objects are opaque and never enter this crate.
//! The caller that talks to it keeps those objects in its own store and
//! passes small handles (`u64`) plus the data fields the gateway actually
//! reads.  Every type here is such an image.

use vstd::prelude::*;

verus! {

/// What a login-code request came back with.
#[derive(Clone, Copy, Debug, PartialEq, Eq, Structural)]
pub enum CodeRequestOutcome {
    /// The provider issued a login token; the handle names it in the
    /// caller's token store.
    Issued(u64),
    /// The provider asked for a session restart — the one fault class that
    /// is retried, exactly once.
    TransientFault,
    /// Any other provider fault.
    Fault,
}

/// What a sign-in attempt with a login token and code came back with.
#[derive(Clone, Copy, Debug, PartialEq, Eq, Structural)]
pub enum SignInOutcome {
    /// The account is signed in.
    SignedIn,
    /// The account needs its two-step password; the handle names the
    /// password token in the caller's store.
    PasswordNeeded(u64),
    /// The phone number has no registered account.
    SignUpNeeded,
    /// The provider declined the code.
    Rejected,
}

/// What a password check came back with.
#[derive(Clone, Copy, Debug, PartialEq, Eq, Structural)]
pub enum PasswordOutcome {
    Accepted,
    Rejected,
}

/// What an authorization probe came back with.
#[derive(Clone, Copy, Debug, PartialEq, Eq, Structural)]
pub enum AuthProbe {
    Authorized,
    NotAuthorized,
    /// The probe itself failed.
    ProbeFailed,
}

/// The folder metadata of one dialog, as far as the gateway reads it.
#[derive(Clone, Copy, Debug, PartialEq, Eq, Structural)]
pub enum DialogMeta {
    /// The provider record had the recognized shape.
    Known { unread_count: i32, folder_id: Option<i32> },
    /// Any other record shape; unread count and archive flag default.
    Other,
}

/// One dialog from a full provider dialog fetch, in fetch order.
#[derive(Debug)]
pub struct DialogInfo {
    /// Names the opaque conversation object in the caller's store.
    pub handle: u64,
    pub name: Option<String>,
    pub last_message: Option<String>,
    pub meta: DialogMeta,
}

impl Clone for DialogInfo {
    fn clone(&self) -> (r: Self)
        ensures
            r == *self,
    {
        DialogInfo {
            handle: self.handle,
            name: match &self.name {
                Some(n) => Some(n.clone()),
                None => None,
            },
            last_message: match &self.last_message {
                Some(m) => Some(m.clone()),
                None => None,
            },
            meta: self.meta,
        }
    }
}

/// One message from a provider message fetch, newest first.
#[derive(Debug)]
pub struct MessageInfo {
    pub id: i32,
    pub text: String,
    pub sender_name: Option<String>,
    pub outgoing: bool,
    /// Seconds since the epoch.
    pub timestamp: i64,
}

impl Clone for MessageInfo {
    fn clone(&self) -> (r: Self)
        ensures
            r == *self,
    {
        MessageInfo {
            id: self.id,
            text: self.text.clone(),
            sender_name: match &self.sender_name {
                Some(n) => Some(n.clone()),
                None => None,
            },
            outgoing: self.outgoing,
            timestamp: self.timestamp,
        }
    }
}

/// Provider message fetches run backwards through history: timestamps
/// never increase along the fetched sequence.
pub open spec fn newest_first(s: Seq<MessageInfo>) -> bool {
    forall|i: int, j: int| 0 <= i < j < s.len() ==> s[i].timestamp >= s[j].timestamp
}

/// What delivering one outgoing message came back with.
#[derive(Debug)]
pub enum SendOutcome {
    /// The provider accepted the message.
    Delivered,
    /// The chat id was not in the index table; nothing was sent.
    ChatMissing,
    /// The provider failed; the text is its error rendering.
    ProviderFailed(String),
}

} // verus!

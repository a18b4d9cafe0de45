//! The gateway's error taxonomy.

use vstd::prelude::*;

verus! {

/// Everything that can go wrong between a client command and the provider.
///
/// `PasswordRequired` is a control-flow signal rather than a true failure:
/// the login token was accepted but the account needs a follow-up password
/// check before a session can be issued.
#[derive(Clone, Copy, Debug, PartialEq, Eq, Structural)]
pub enum AuthError {
    /// A verification was attempted for a phone with no pending token.
    NoPendingAuth,
    /// The account has two-step verification enabled; call the password step next.
    PasswordRequired,
    /// The phone number has no registered account.
    SignUpRequired,
    /// The provider declined the credentials or the session.
    ProviderRejected,
    /// A chat id that the index table does not know.
    ChatNotFound,
    /// Provider connectivity failed.
    TransportError,
    /// The client sent a frame that is not a well-formed command.
    MalformedCommand,
}

impl AuthError {
    /// The human-readable message that crosses the HTTP boundary for this error.
    pub fn describe(&self) -> (r: &'static str)
        ensures
            r@ == self.describe_spec(),
    {
        match self {
            AuthError::NoPendingAuth => "No pending auth for this phone. Request code first!",
            AuthError::PasswordRequired => "2FA password required. Please call verify_password.",
            AuthError::SignUpRequired => "This phone number is not registered. Please sign up first.",
            AuthError::ProviderRejected => "Sign in failed",
            AuthError::ChatNotFound => "Chat not found",
            AuthError::TransportError => "request error",
            AuthError::MalformedCommand => "Failed to parse command",
        }
    }

    pub open spec fn describe_spec(&self) -> Seq<char> {
        match self {
            AuthError::NoPendingAuth => "No pending auth for this phone. Request code first!"@,
            AuthError::PasswordRequired => "2FA password required. Please call verify_password."@,
            AuthError::SignUpRequired => "This phone number is not registered. Please sign up first."@,
            AuthError::ProviderRejected => "Sign in failed"@,
            AuthError::ChatNotFound => "Chat not found"@,
            AuthError::TransportError => "request error"@,
            AuthError::MalformedCommand => "Failed to parse command"@,
        }
    }
}

} // verus!

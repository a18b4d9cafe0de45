//! Laws of the authentication and index state machine.
//!
//! Each proof function here states a property of whole operation flows
//! over the step relations of `session`, for arbitrary states and inputs.

use vstd::prelude::*;
use crate::errors::AuthError;
use crate::provider::{SignInOutcome, PasswordOutcome, DialogInfo};
use crate::session::{
    SessionManager, verify_code_begin_rel, verify_code_finish_rel, verify_password_begin_rel,
    verify_password_finish_rel, get_dialogs_rel,
};
use crate::types::Chat;

verus! {

/// Verifying a code for a phone that has no pending login token — in
/// particular, one for which no code request ever succeeded — fails with
/// `NoPendingAuth` and changes nothing.
pub proof fn law_verify_without_request(
    pre: SessionManager,
    post: SessionManager,
    phone: Seq<char>,
    r: Result<u64, AuthError>,
)
    requires
        !pre.has_pending_login(phone),
        verify_code_begin_rel(pre, post, phone, r),
    ensures
        r == Err::<u64, AuthError>(AuthError::NoPendingAuth),
        !post.has_pending_login(phone),
{
}

/// The login token is consumed exactly once: after a code verification ran
/// for `phone` — whatever the provider answered — a second verification
/// without a fresh code request fails with `NoPendingAuth`.
pub proof fn law_token_consumed_once(
    m0: SessionManager,
    m1: SessionManager,
    m2: SessionManager,
    m3: SessionManager,
    phone: Seq<char>,
    token: u64,
    outcome: SignInOutcome,
    r1: Result<String, AuthError>,
    r2: Result<u64, AuthError>,
)
    requires
        verify_code_begin_rel(m0, m1, phone, Ok(token)),
        verify_code_finish_rel(m1, m2, phone, outcome, r1),
        verify_code_begin_rel(m2, m3, phone, r2),
    ensures
        r2 == Err::<u64, AuthError>(AuthError::NoPendingAuth),
{
    assert(!m1.has_pending_login(phone));
    assert(!m2.has_pending_login(phone));
}

/// When code verification answered "password required", the password step
/// with the provider's acceptance succeeds and returns a session
/// identifier that is never empty and maps to the phone.
pub proof fn law_password_accepted(
    m0: SessionManager,
    m1: SessionManager,
    m2: SessionManager,
    m3: SessionManager,
    phone: Seq<char>,
    ptoken: u64,
    r1: Result<String, AuthError>,
    rb: Result<u64, AuthError>,
    rf: Result<String, AuthError>,
)
    requires
        verify_code_finish_rel(m0, m1, phone, SignInOutcome::PasswordNeeded(ptoken), r1),
        verify_password_begin_rel(m1, m2, phone, rb),
        verify_password_finish_rel(m2, m3, phone, PasswordOutcome::Accepted, rf),
    ensures
        r1 == Err::<String, AuthError>(AuthError::PasswordRequired),
        rb == Ok::<u64, AuthError>(ptoken),
        rf matches Ok(sid) && sid@.len() == 36 && m3.has_session(sid@) && m3.session_phone(sid@)
            == phone,
{
    assert(m1.has_pending_password(phone));
    assert(m1.pending_password_token(phone) == ptoken);
}

/// When the provider rejects the password, the step fails with
/// `ProviderRejected` and the consumed password token is not restored: a
/// retry without a fresh code flow fails with `NoPendingAuth`.
pub proof fn law_password_rejected(
    m0: SessionManager,
    m1: SessionManager,
    m2: SessionManager,
    m3: SessionManager,
    phone: Seq<char>,
    token: u64,
    rf: Result<String, AuthError>,
    retry: Result<u64, AuthError>,
)
    requires
        verify_password_begin_rel(m0, m1, phone, Ok(token)),
        verify_password_finish_rel(m1, m2, phone, PasswordOutcome::Rejected, rf),
        verify_password_begin_rel(m2, m3, phone, retry),
    ensures
        rf == Err::<String, AuthError>(AuthError::ProviderRejected),
        !m2.has_pending_password(phone),
        retry == Err::<u64, AuthError>(AuthError::NoPendingAuth),
{
    assert(!m1.has_pending_password(phone));
}

/// Dialog fetches assign ids 1..N in fetch order, and a second, smaller
/// fetch leaves the tail of the first fetch resolvable: ids above the new
/// fetch's size still resolve to the handles the first fetch recorded.
/// This preserves the baseline's never-pruned index table as documented
/// behaviour.
pub proof fn law_stale_indices_survive(
    m0: SessionManager,
    m1: SessionManager,
    m2: SessionManager,
    first: Seq<DialogInfo>,
    second: Seq<DialogInfo>,
    r1: Seq<Chat>,
    r2: Seq<Chat>,
)
    requires
        m0.chat_count() == 0,
        get_dialogs_rel(m0, m1, first, r1),
        get_dialogs_rel(m1, m2, second, r2),
        second.len() < first.len(),
    ensures
        forall|id: int| 1 <= id <= second.len() ==> #[trigger] m2.chat_handle(id) == second[id - 1].handle,
        forall|id: int| second.len() < id <= first.len() ==> #[trigger] m2.chat_handle(id) == first[
            id - 1].handle,
        m2.chat_count() == first.len(),
{
    assert(m1.chat_count() == first.len());
    assert forall|id: int| second.len() < id <= first.len() implies #[trigger] m2.chat_handle(id)
        == first[id - 1].handle by {
        assert(m2.chat_handle(id) == m1.chat_handle(id));
        assert(m1.chat_handle((id - 1) + 1) == first[id - 1].handle);
    }
    assert forall|id: int| 1 <= id <= second.len() implies #[trigger] m2.chat_handle(id) == second[
        id - 1].handle by {
        assert(m2.chat_handle((id - 1) + 1) == second[id - 1].handle);
    }
}

} // verus!

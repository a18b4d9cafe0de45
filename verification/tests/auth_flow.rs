use wgram::errors::AuthError;
use wgram::provider::{CodeRequestOutcome, PasswordOutcome, SignInOutcome};
use wgram::session::SessionManager;

#[test]
fn verify_without_request_fails() {
    let mut mgr = SessionManager::new();
    let r = mgr.verify_code_begin("+15550100");
    assert_eq!(r, Err(AuthError::NoPendingAuth));
}

#[test]
fn request_then_verify_succeeds() {
    let mut mgr = SessionManager::new();
    assert_eq!(mgr.request_code("+15550100", CodeRequestOutcome::Issued(7), None), Ok(()));
    assert_eq!(mgr.verify_code_begin("+15550100"), Ok(7));
    let sid = mgr.verify_code_finish("+15550100", SignInOutcome::SignedIn).unwrap();
    assert_eq!(sid.len(), 36);
    assert!(!sid.is_empty());
    assert_eq!(mgr.get_session(&sid), Some(&"+15550100".to_string()));
}

#[test]
fn token_consumed_exactly_once() {
    let mut mgr = SessionManager::new();
    assert_eq!(mgr.request_code("+15550100", CodeRequestOutcome::Issued(7), None), Ok(()));
    assert_eq!(mgr.verify_code_begin("+15550100"), Ok(7));
    // Wrong code: the provider rejects, and the token stays spent.
    assert_eq!(
        mgr.verify_code_finish("+15550100", SignInOutcome::Rejected),
        Err(AuthError::ProviderRejected)
    );
    assert_eq!(mgr.verify_code_begin("+15550100"), Err(AuthError::NoPendingAuth));
}

#[test]
fn rerequest_replaces_pending_token() {
    let mut mgr = SessionManager::new();
    assert_eq!(mgr.request_code("+15550100", CodeRequestOutcome::Issued(7), None), Ok(()));
    assert_eq!(mgr.request_code("+15550100", CodeRequestOutcome::Issued(8), None), Ok(()));
    assert_eq!(mgr.verify_code_begin("+15550100"), Ok(8));
}

#[test]
fn transient_fault_retry_succeeds() {
    let mut mgr = SessionManager::new();
    let r = mgr.request_code(
        "+15550100",
        CodeRequestOutcome::TransientFault,
        Some(CodeRequestOutcome::Issued(5)),
    );
    assert_eq!(r, Ok(()));
    assert_eq!(mgr.verify_code_begin("+15550100"), Ok(5));
}

#[test]
fn transient_fault_twice_is_transport_error() {
    let mut mgr = SessionManager::new();
    let r = mgr.request_code(
        "+15550100",
        CodeRequestOutcome::TransientFault,
        Some(CodeRequestOutcome::Fault),
    );
    assert_eq!(r, Err(AuthError::TransportError));
    assert_eq!(mgr.verify_code_begin("+15550100"), Err(AuthError::NoPendingAuth));
}

#[test]
fn plain_fault_is_provider_rejected() {
    let mut mgr = SessionManager::new();
    let r = mgr.request_code("+15550100", CodeRequestOutcome::Fault, None);
    assert_eq!(r, Err(AuthError::ProviderRejected));
    assert_eq!(mgr.verify_code_begin("+15550100"), Err(AuthError::NoPendingAuth));
}

#[test]
fn sign_up_required_is_terminal() {
    let mut mgr = SessionManager::new();
    assert_eq!(mgr.request_code("+15550100", CodeRequestOutcome::Issued(7), None), Ok(()));
    assert_eq!(mgr.verify_code_begin("+15550100"), Ok(7));
    assert_eq!(
        mgr.verify_code_finish("+15550100", SignInOutcome::SignUpNeeded),
        Err(AuthError::SignUpRequired)
    );
    assert_eq!(mgr.verify_code_begin("+15550100"), Err(AuthError::NoPendingAuth));
}

#[test]
fn password_flow_accepted() {
    let mut mgr = SessionManager::new();
    assert_eq!(mgr.request_code("+15550100", CodeRequestOutcome::Issued(7), None), Ok(()));
    assert_eq!(mgr.verify_code_begin("+15550100"), Ok(7));
    assert_eq!(
        mgr.verify_code_finish("+15550100", SignInOutcome::PasswordNeeded(9)),
        Err(AuthError::PasswordRequired)
    );
    assert_eq!(mgr.verify_password_begin("+15550100"), Ok(9));
    let sid = mgr.verify_password_finish("+15550100", PasswordOutcome::Accepted).unwrap();
    assert_eq!(sid.len(), 36);
    assert_eq!(mgr.get_session(&sid), Some(&"+15550100".to_string()));
}

#[test]
fn password_flow_rejected_does_not_restore_token() {
    let mut mgr = SessionManager::new();
    assert_eq!(mgr.request_code("+15550100", CodeRequestOutcome::Issued(7), None), Ok(()));
    assert_eq!(mgr.verify_code_begin("+15550100"), Ok(7));
    assert_eq!(
        mgr.verify_code_finish("+15550100", SignInOutcome::PasswordNeeded(9)),
        Err(AuthError::PasswordRequired)
    );
    assert_eq!(mgr.verify_password_begin("+15550100"), Ok(9));
    assert_eq!(
        mgr.verify_password_finish("+15550100", PasswordOutcome::Rejected),
        Err(AuthError::ProviderRejected)
    );
    assert_eq!(mgr.verify_password_begin("+15550100"), Err(AuthError::NoPendingAuth));
}

#[test]
fn password_without_pending_token_fails() {
    let mut mgr = SessionManager::new();
    assert_eq!(mgr.verify_password_begin("+15550100"), Err(AuthError::NoPendingAuth));
}

#[test]
fn session_ids_are_distinct_per_login() {
    let mut mgr = SessionManager::new();
    assert_eq!(mgr.request_code("+15550100", CodeRequestOutcome::Issued(1), None), Ok(()));
    assert_eq!(mgr.verify_code_begin("+15550100"), Ok(1));
    let sid1 = mgr.verify_code_finish("+15550100", SignInOutcome::SignedIn).unwrap();
    assert_eq!(mgr.request_code("+15550101", CodeRequestOutcome::Issued(2), None), Ok(()));
    assert_eq!(mgr.verify_code_begin("+15550101"), Ok(2));
    let sid2 = mgr.verify_code_finish("+15550101", SignInOutcome::SignedIn).unwrap();
    assert_ne!(sid1, sid2);
    assert_eq!(mgr.get_session(&sid1), Some(&"+15550100".to_string()));
    assert_eq!(mgr.get_session(&sid2), Some(&"+15550101".to_string()));
    assert_eq!(mgr.get_session("not-a-session"), None);
}

#[test]
fn phones_have_independent_tokens() {
    let mut mgr = SessionManager::new();
    assert_eq!(mgr.request_code("+15550100", CodeRequestOutcome::Issued(1), None), Ok(()));
    assert_eq!(mgr.request_code("+15550101", CodeRequestOutcome::Issued(2), None), Ok(()));
    assert_eq!(mgr.verify_code_begin("+15550100"), Ok(1));
    assert_eq!(mgr.verify_code_begin("+15550100"), Err(AuthError::NoPendingAuth));
    assert_eq!(mgr.verify_code_begin("+15550101"), Ok(2));
}

#[test]
fn error_messages_render() {
    assert_eq!(
        AuthError::NoPendingAuth.describe(),
        "No pending auth for this phone. Request code first!"
    );
    assert_eq!(
        AuthError::PasswordRequired.describe(),
        "2FA password required. Please call verify_password."
    );
    assert_eq!(
        AuthError::SignUpRequired.describe(),
        "This phone number is not registered. Please sign up first."
    );
    assert_eq!(AuthError::ChatNotFound.describe(), "Chat not found");
    assert_eq!(AuthError::ProviderRejected.describe(), "Sign in failed");
    assert_eq!(AuthError::TransportError.describe(), "request error");
    assert_eq!(AuthError::MalformedCommand.describe(), "Failed to parse command");
}

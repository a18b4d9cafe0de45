//! Session and sync gateway for a phone-login messaging provider.
//!
//! The crate models the state that a small chat gateway keeps between a
//! browser client and a messaging provider: the multi-step login flow
//! (code request, code verification, optional password check), the table
//! that maps small stable chat ids to opaque provider conversation
//! handles, the per-connection command dispatcher, and the client-side
//! polling scheduler.  All provider and transport I/O happens outside the
//! crate; callers feed the outcomes of those calls in as plain values and
//! every decision taken on them is verified.

pub mod client;
pub mod dispatch;
pub mod envelope;
pub mod errors;
pub mod laws;
pub mod provider;
pub mod scheduler;
pub mod session;
pub mod tables;
pub mod text;
pub mod types;

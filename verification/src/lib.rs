//! An anonymized contact relay: a requester obtains an opaque token bound
//! to a protected email address, third parties submit messages addressed
//! to that token, and the relay forwards each message by email without
//! revealing the address.
//!
//! The crate holds the relay's core as verified code: token-gated message
//! admission with exact field validation, the account store with its
//! one-account-per-email and one-token-per-account invariants, usage
//! accounting that loses no update, the bounded FIFO dispatch queue that
//! decouples admission from the slow mail transport, and the delivery
//! worker's dequeue-and-transform step. Randomness (token generation),
//! email syntax, the clock and the mail-message assembly come from
//! outside libraries through a handful of trusted declarations; the I/O
//! that drives the relay lives outside the library.

pub mod account;
pub mod admission;
mod clock;
pub mod envelope;
pub mod errors;
pub mod issuer;
pub mod queue;
pub mod store;
pub mod validate;
pub mod worker;

//! Dynamic-DNS reconciliation engine.
//!
//! The library discovers the caller's public address through a DNS text-record
//! echo lookup, compares it with the content a DNS provider has stored for a
//! record, and decides whether a single update call must be issued.  All
//! network traffic is performed by the surrounding binary; the library holds
//! the decision logic as a verified state machine together with the decoding
//! of the echo answer and the validation of the provider's response envelopes.

pub mod discovery;
pub mod engine;
pub mod envelope;
pub mod laws;
pub mod outcome;
pub mod record;

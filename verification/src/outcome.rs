//! Outcome and error taxonomy of a reconciliation run.

use vstd::prelude::*;

use crate::envelope::RequestError;

verus! {

/// Failure of the DNS echo lookup that discovers the public address.
#[derive(Clone, Debug, PartialEq, Eq)]
pub enum DiscoveryError {
    /// The query could not be sent to the resolver.
    Unreachable,
    /// The query was sent but no reply arrived within the bound.
    Timeout,
    /// The reply held no text answer to decode.
    NoAnswer,
    /// The text answer was not valid UTF-8.
    MalformedAnswer,
}

/// Failure of an HTTP exchange with the provider, before any envelope
/// could be decoded.
#[derive(Clone, Debug, PartialEq, Eq)]
pub enum TransportError {
    /// The request could not be sent or the reply could not be read.
    Network,
    /// The exchange did not finish within the bound.
    Timeout,
}

/// The stage of the run in which a failure occurred.
#[derive(Clone, Copy, Debug, PartialEq, Eq, Structural)]
pub enum Stage {
    /// Fetching the candidate records from the provider.
    Lookup,
    /// Discovering the current public address.
    Discovery,
    /// Writing the new content back to the provider.
    Update,
}

/// What went wrong, with as much structure as the failing step offered.
#[derive(Clone, Debug, PartialEq, Eq)]
pub enum Cause {
    /// The provider returned no record under the requested name.
    NotFound,
    /// The provider rejected the request; its full error list is kept.
    Api(Vec<RequestError>),
    /// The provider reported success but the payload was unusable.
    Malformed,
    /// The record vanished between lookup and update: the provider
    /// reported success without a committed record snapshot.
    Conflict,
    /// The HTTP exchange itself failed.
    Transport(TransportError),
    /// The address discovery failed.
    Discovery(DiscoveryError),
}

/// The single outcome a reconciliation run produces.
#[derive(Clone, Debug, PartialEq, Eq)]
pub enum ReconciliationResult {
    /// The stored content already equals the discovered address.
    Unchanged,
    /// One update call was issued and acknowledged.
    Updated { old: String, new: String },
    /// The run stopped at `stage` for `cause`; nothing was rolled back.
    Failed { stage: Stage, cause: Cause },
}

impl ReconciliationResult {
    /// The process exit status an outcome maps to: zero exactly when the
    /// run did not fail, so that `Unchanged` counts as success.
    pub fn exit_code(&self) -> (code: i32)
        ensures
            code == (if self is Failed {
                1i32
            } else {
                0i32
            }),
    {
        match self {
            ReconciliationResult::Failed { .. } => 1,
            _ => 0,
        }
    }
}

} // verus!

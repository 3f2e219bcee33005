//! The provider's response envelopes and their validation.
//!
//! Every provider reply wraps its payload in an envelope carrying a success
//! flag, an optional result and a list of structured errors.  Validation
//! keeps the two situations apart that a caller must distinguish: a request
//! the provider rejected (`success` false, errors kept in full) and a
//! successful request whose payload is missing.

use vstd::prelude::*;

use crate::outcome::Cause;
use crate::record::DnsRecord;

verus! {

/// One `{code, message}` entry from an envelope's error list.
#[derive(Clone, Debug, PartialEq, Eq)]
pub struct RequestError {
    pub code: String,
    pub message: String,
}

/// The envelope around a record listing.
#[derive(Clone, Debug, PartialEq, Eq)]
pub struct ListEnvelope {
    pub success: bool,
    pub result: Option<Vec<DnsRecord>>,
    pub errors: Vec<RequestError>,
}

/// The envelope around a single committed record, as an update call
/// returns it.
#[derive(Clone, Debug, PartialEq, Eq)]
pub struct RecordEnvelope {
    pub success: bool,
    pub result: Option<DnsRecord>,
    pub errors: Vec<RequestError>,
}

/// What a listing envelope amounts to: the records on success, the
/// provider's unmodified error list on rejection, and `Malformed` when the
/// provider claimed success but sent no result payload.
pub open spec fn lookup_records(env: ListEnvelope) -> Result<Vec<DnsRecord>, Cause> {
    if !env.success {
        Err(Cause::Api(env.errors))
    } else {
        match env.result {
            Some(records) => Ok(records),
            None => Err(Cause::Malformed),
        }
    }
}

/// What an update envelope amounts to: the committed record on success,
/// the provider's unmodified error list on rejection, and `Conflict` when
/// the provider claimed success without a committed record, which means
/// the record vanished between lookup and update.
pub open spec fn update_outcome(env: RecordEnvelope) -> Result<DnsRecord, Cause> {
    if !env.success {
        Err(Cause::Api(env.errors))
    } else {
        match env.result {
            Some(record) => Ok(record),
            None => Err(Cause::Conflict),
        }
    }
}

impl ListEnvelope {
    /// Validate a listing envelope into its records or failure cause.
    pub fn into_records(self) -> (r: Result<Vec<DnsRecord>, Cause>)
        ensures
            r == lookup_records(self),
    {
        if !self.success {
            Err(Cause::Api(self.errors))
        } else {
            match self.result {
                Some(records) => Ok(records),
                None => Err(Cause::Malformed),
            }
        }
    }
}

impl RecordEnvelope {
    /// Validate an update envelope into the committed record or failure
    /// cause.
    pub fn into_record(self) -> (r: Result<DnsRecord, Cause>)
        ensures
            r == update_outcome(self),
    {
        if !self.success {
            Err(Cause::Api(self.errors))
        } else {
            match self.result {
                Some(record) => Ok(record),
                None => Err(Cause::Conflict),
            }
        }
    }
}

/// A rejected listing keeps the provider's full error list: it is never
/// swallowed or replaced.
pub proof fn lemma_rejected_listing_keeps_errors(env: ListEnvelope)
    requires
        !env.success,
    ensures
        lookup_records(env) == Err::<Vec<DnsRecord>, Cause>(Cause::Api(env.errors)),
{
}

/// A rejected update keeps the provider's full error list as well.
pub proof fn lemma_rejected_update_keeps_errors(env: RecordEnvelope)
    requires
        !env.success,
    ensures
        update_outcome(env) == Err::<DnsRecord, Cause>(Cause::Api(env.errors)),
{
}

} // verus!

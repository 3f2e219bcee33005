//! The provider's representation of a DNS record and the body of an update.

use vstd::prelude::*;

verus! {

/// A snapshot of one DNS record as the provider returned it.  The provider
/// owns the record; the engine only reads the snapshot fetched for the
/// current run.
#[derive(Clone, Debug, PartialEq, Eq)]
pub struct DnsRecord {
    /// Provider-assigned identifier, required to address the record in an
    /// update call.
    pub id: String,
    /// The record type, for example `A` or `AAAA`.
    pub record_type: String,
    /// The fully qualified name the record answers for.
    pub name: String,
    /// The address the provider currently serves, as a string.
    pub content: String,
    /// Time to live in seconds.
    pub ttl: u32,
    /// Whether the provider proxies traffic for the record.
    pub proxied: bool,
    /// The zone the record belongs to on the provider's side.
    pub zone_id: String,
}

/// The body of an update call: a record snapshot with `content` replaced by
/// the freshly discovered address and every other transmitted field kept.
#[derive(Clone, Debug, PartialEq, Eq)]
pub struct UpdateRequest {
    pub record_type: String,
    pub name: String,
    pub content: String,
    pub ttl: u32,
}

/// Whether `request` is exactly the update the engine owes for `record`
/// once `address` has been discovered: the new content with the record's
/// type, name and time to live preserved.
pub open spec fn preserves_record(request: UpdateRequest, record: DnsRecord, address: Seq<char>) -> bool {
    &&& request.record_type == record.record_type
    &&& request.name == record.name
    &&& request.content@ == address
    &&& request.ttl == record.ttl
}

} // verus!

//! The guarantees of the reconciliation engine, stated and proved once.
//!
//! [`run`] describes a complete run as a function of the replies the
//! outside world would give: the outcome reported and the number of
//! update calls dispatched.  [`lemma_run_follows_machine`] ties it to the
//! machine in `engine`; the remaining lemmas state the guarantees callers
//! rely on.

use vstd::prelude::*;

use crate::engine::{compare_step, next, update_result, Action, Engine, Event, State};
use crate::envelope::{lookup_records, ListEnvelope, RecordEnvelope};
use crate::outcome::{Cause, DiscoveryError, ReconciliationResult, Stage, TransportError};
use crate::record::{preserves_record, DnsRecord};

verus! {

/// What the comparison stage contributes to a run: equal content ends the
/// run unchanged with no write; differing content costs exactly one
/// update call, whose acknowledgement decides the outcome.
pub open spec fn compare_result(
    record: DnsRecord,
    address: String,
    update_reply: Result<RecordEnvelope, TransportError>,
) -> (ReconciliationResult, nat) {
    if address@ == record.content@ {
        (ReconciliationResult::Unchanged, 0)
    } else {
        (update_result(record.content, address, update_reply), 1)
    }
}

/// A whole run as a function of the replies the outside world would give:
/// the outcome reported, and the number of update calls dispatched.
pub open spec fn run(
    zone: String,
    override_address: Option<String>,
    list_reply: Result<ListEnvelope, TransportError>,
    discovery_reply: Result<String, DiscoveryError>,
    update_reply: Result<RecordEnvelope, TransportError>,
) -> (ReconciliationResult, nat) {
    match list_reply {
        Err(transport) => (
            ReconciliationResult::Failed {
                stage: Stage::Lookup,
                cause: Cause::Transport(transport),
            },
            0,
        ),
        Ok(env) => match lookup_records(env) {
            Err(cause) => (ReconciliationResult::Failed { stage: Stage::Lookup, cause }, 0),
            Ok(records) => if records@.len() == 0 {
                (
                    ReconciliationResult::Failed {
                        stage: Stage::Lookup,
                        cause: Cause::NotFound,
                    },
                    0,
                )
            } else {
                match override_address {
                    None => match discovery_reply {
                        Err(error) => (
                            ReconciliationResult::Failed {
                                stage: Stage::Discovery,
                                cause: Cause::Discovery(error),
                            },
                            0,
                        ),
                        Ok(address) => compare_result(records@[0], address, update_reply),
                    },
                    Some(address) => compare_result(records@[0], address, update_reply),
                }
            },
        },
    }
}

/// Stepping the machine through a run reports exactly the outcome of
/// [`run`] and dispatches exactly its number of update calls, whatever
/// the replies are.
pub proof fn lemma_run_follows_machine(
    zone: String,
    override_address: Option<String>,
    list_reply: Result<ListEnvelope, TransportError>,
    discovery_reply: Result<String, DiscoveryError>,
    update_reply: Result<RecordEnvelope, TransportError>,
)
    ensures
        ({
            let s0 = State::AwaitRecords { zone, override_address };
            let (s1, a1) = next(s0, Event::RecordsFetched(list_reply));
            let (outcome, updates) = run(
                zone,
                override_address,
                list_reply,
                discovery_reply,
                update_reply,
            );
            &&& (a1 is Report || a1 is Discover || a1 is SendUpdate)
            &&& (a1 matches Action::Report(reported) ==> reported == outcome && updates == 0)
            &&& (a1 is Discover ==> {
                let (s2, a2) = next(s1, Event::Discovered(discovery_reply));
                &&& (a2 is Report || a2 is SendUpdate)
                &&& (a2 matches Action::Report(reported) ==> reported == outcome && updates == 0)
                &&& (a2 is SendUpdate ==> {
                    let (s3, a3) = next(s2, Event::UpdateSent(update_reply));
                    &&& a3 matches Action::Report(reported) && reported == outcome
                    &&& updates == 1
                })
            })
            &&& (a1 is SendUpdate ==> {
                let (s3, a3) = next(s1, Event::UpdateSent(update_reply));
                &&& a3 matches Action::Report(reported) && reported == outcome
                &&& updates == 1
            })
        }),
{
}

/// No run ever dispatches more than one update call.
pub proof fn lemma_at_most_one_update(
    zone: String,
    override_address: Option<String>,
    list_reply: Result<ListEnvelope, TransportError>,
    discovery_reply: Result<String, DiscoveryError>,
    update_reply: Result<RecordEnvelope, TransportError>,
)
    ensures
        run(zone, override_address, list_reply, discovery_reply, update_reply).1 <= 1,
{
}

/// The machine view of the same invariant: only the comparison ever
/// dispatches an update, it leaves the machine awaiting the
/// acknowledgement, from where every step reports and finishes, and a
/// finished engine accepts no further event.
pub proof fn lemma_single_update_per_run(pre: State, event: Event)
    ensures
        next(pre, event).1 is SendUpdate ==> next(pre, event).0 is AwaitUpdate,
        pre is AwaitUpdate && (Engine { state: pre }).accepts(event) ==> next(pre, event).0
            is Finished && next(pre, event).1 is Report,
        pre is Finished ==> !(Engine { state: pre }).accepts(event),
{
}

/// A run that reports `Unchanged` dispatched no update call.
pub proof fn lemma_unchanged_wrote_nothing(
    zone: String,
    override_address: Option<String>,
    list_reply: Result<ListEnvelope, TransportError>,
    discovery_reply: Result<String, DiscoveryError>,
    update_reply: Result<RecordEnvelope, TransportError>,
)
    ensures
        run(zone, override_address, list_reply, discovery_reply, update_reply).0 is Unchanged
            ==> run(zone, override_address, list_reply, discovery_reply, update_reply).1 == 0,
{
}

/// Reconciliation is idempotent.  When the discovered address already
/// equals the stored content, the run reports `Unchanged` and dispatches
/// no update call; nothing was written, so a later run that finds the
/// same record and discovers the same stable address again reports
/// `Unchanged` and again writes nothing.
pub proof fn lemma_idempotent(
    zone: String,
    env: ListEnvelope,
    records: Vec<DnsRecord>,
    address: String,
    update_reply: Result<RecordEnvelope, TransportError>,
)
    requires
        lookup_records(env) == Ok::<Vec<DnsRecord>, Cause>(records),
        records@.len() > 0,
        address@ == records@[0].content@,
    ensures
        run(zone, None, Ok(env), Ok(address), update_reply).0 == ReconciliationResult::Unchanged,
        run(zone, None, Ok(env), Ok(address), update_reply).1 == 0,
{
}

/// The two-invocation reading of idempotence.  A first run that reported
/// `Unchanged` dispatched no update call, so the provider's store is
/// untouched; a second run that finds a first record with the same
/// content and discovers the same stable address reports `Unchanged`
/// again and again writes nothing.
pub proof fn lemma_second_run_unchanged(
    zone: String,
    env: ListEnvelope,
    records: Vec<DnsRecord>,
    address: String,
    update_reply: Result<RecordEnvelope, TransportError>,
    second_zone: String,
    second_env: ListEnvelope,
    second_records: Vec<DnsRecord>,
    second_address: String,
    second_update_reply: Result<RecordEnvelope, TransportError>,
)
    requires
        lookup_records(env) == Ok::<Vec<DnsRecord>, Cause>(records),
        records@.len() > 0,
        run(zone, None, Ok(env), Ok(address), update_reply).0 is Unchanged,
        lookup_records(second_env) == Ok::<Vec<DnsRecord>, Cause>(second_records),
        second_records@.len() > 0,
        second_records@[0].content@ == records@[0].content@,
        second_address@ == address@,
    ensures
        run(zone, None, Ok(env), Ok(address), update_reply).1 == 0,
        run(second_zone, None, Ok(second_env), Ok(second_address), second_update_reply).0
            == ReconciliationResult::Unchanged,
        run(second_zone, None, Ok(second_env), Ok(second_address), second_update_reply).1 == 0,
{
}

/// An `Updated` outcome is exact: it is only reported after the one
/// update call was dispatched and acknowledged, and it carries the
/// content the record held before and the address that was discovered.
pub proof fn lemma_updated_report_is_exact(
    zone: String,
    env: ListEnvelope,
    records: Vec<DnsRecord>,
    address: String,
    update_reply: Result<RecordEnvelope, TransportError>,
)
    requires
        lookup_records(env) == Ok::<Vec<DnsRecord>, Cause>(records),
        records@.len() > 0,
    ensures
        ({
            let (outcome, updates) = run(zone, None, Ok(env), Ok(address), update_reply);
            outcome matches ReconciliationResult::Updated { old, new } ==> {
                &&& old == records@[0].content
                &&& new == address
                &&& address@ != records@[0].content@
                &&& updates == 1
                &&& update_reply matches Ok(acknowledged) && acknowledged.success
            }
        }),
{
}

/// An update call is dispatched exactly when the discovered address
/// differs from the stored content, by string comparison.
pub proof fn lemma_update_iff_differs(
    zone: String,
    env: ListEnvelope,
    records: Vec<DnsRecord>,
    address: String,
    update_reply: Result<RecordEnvelope, TransportError>,
)
    requires
        lookup_records(env) == Ok::<Vec<DnsRecord>, Cause>(records),
        records@.len() > 0,
    ensures
        run(zone, None, Ok(env), Ok(address), update_reply).1 == 1 <==> address@
            != records@[0].content@,
        run(zone, None, Ok(env), Ok(address), update_reply).1 == 0 <==> address@
            == records@[0].content@,
{
}

/// An empty listing ends the run as `Failed` at the lookup stage with
/// cause `NotFound`: the engine never creates records and never reaches
/// the comparison.
pub proof fn lemma_empty_listing_is_not_found(
    zone: String,
    override_address: Option<String>,
    env: ListEnvelope,
    discovery_reply: Result<String, DiscoveryError>,
    update_reply: Result<RecordEnvelope, TransportError>,
)
    requires
        env.success,
        env.result matches Some(records) && records@.len() == 0,
    ensures
        run(zone, override_address, Ok(env), discovery_reply, update_reply).0
            == (ReconciliationResult::Failed { stage: Stage::Lookup, cause: Cause::NotFound }),
        run(zone, override_address, Ok(env), discovery_reply, update_reply).1 == 0,
{
}

/// A listing the provider rejected carries its full error list into the
/// outcome, unmodified.
pub proof fn lemma_rejected_listing_propagates_errors(
    zone: String,
    override_address: Option<String>,
    env: ListEnvelope,
    discovery_reply: Result<String, DiscoveryError>,
    update_reply: Result<RecordEnvelope, TransportError>,
)
    requires
        !env.success,
    ensures
        run(zone, override_address, Ok(env), discovery_reply, update_reply).0
            == (ReconciliationResult::Failed {
            stage: Stage::Lookup,
            cause: Cause::Api(env.errors),
        }),
        run(zone, override_address, Ok(env), discovery_reply, update_reply).1 == 0,
{
}

/// An update the provider rejected carries its full error list into the
/// outcome as well.
pub proof fn lemma_rejected_update_propagates_errors(
    zone: String,
    env: ListEnvelope,
    records: Vec<DnsRecord>,
    address: String,
    update_env: RecordEnvelope,
)
    requires
        lookup_records(env) == Ok::<Vec<DnsRecord>, Cause>(records),
        records@.len() > 0,
        address@ != records@[0].content@,
        !update_env.success,
    ensures
        run(zone, None, Ok(env), Ok(address), Ok(update_env)).0
            == (ReconciliationResult::Failed {
            stage: Stage::Update,
            cause: Cause::Api(update_env.errors),
        }),
        run(zone, None, Ok(env), Ok(address), Ok(update_env)).1 == 1,
{
}

/// A discovery failure ends the run as `Failed` at the discovery stage
/// and no update call is ever dispatched; the previously fetched record
/// is left untouched.  A discovery timeout is the instance with
/// `DiscoveryError::Timeout`.
pub proof fn lemma_discovery_failure_sends_no_update(
    zone: String,
    env: ListEnvelope,
    records: Vec<DnsRecord>,
    error: DiscoveryError,
    update_reply: Result<RecordEnvelope, TransportError>,
)
    requires
        lookup_records(env) == Ok::<Vec<DnsRecord>, Cause>(records),
        records@.len() > 0,
    ensures
        run(zone, None, Ok(env), Err(error), update_reply).0
            == (ReconciliationResult::Failed {
            stage: Stage::Discovery,
            cause: Cause::Discovery(error),
        }),
        run(zone, None, Ok(env), Err(error), update_reply).1 == 0,
{
}

/// When an update is dispatched, it addresses the selected record's id in
/// the same zone; the request carries the record's type, name and time to
/// live with the discovered address as the only change; and the machine
/// keeps the old and the new content for the eventual report.
pub proof fn lemma_update_request_preserves_record(
    zone: String,
    record: DnsRecord,
    address: String,
)
    requires
        address@ != record.content@,
    ensures
        ({
            let (post, act) = compare_step(zone, record, address);
            &&& act matches Action::SendUpdate { zone: send_zone, id, request }
            &&& send_zone == zone
            &&& id == record.id
            &&& preserves_record(request, record, address@)
            &&& post matches State::AwaitUpdate { old_content, new_content }
            &&& old_content == record.content
            &&& new_content == address
        }),
{
}

} // verus!

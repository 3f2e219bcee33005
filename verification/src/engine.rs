//! The reconciliation engine, as a verified state machine.
//!
//! A run is strictly sequential: fetch the candidate records, discover the
//! current public address, compare, and issue at most one update.  Every
//! network exchange is performed by the surrounding binary: the engine
//! hands it an [`Action`], consumes the reply as an [`Event`], and decides
//! the next action.  The spec function [`next`] is the whole behaviour of
//! the machine.  The API credential never enters the engine: the caller
//! attaches it to the calls it performs, so no state, action or outcome
//! can carry it.

use vstd::prelude::*;

use crate::envelope::{lookup_records, update_outcome, ListEnvelope, RecordEnvelope};
use crate::outcome::{Cause, DiscoveryError, ReconciliationResult, Stage, TransportError};
use crate::record::{DnsRecord, UpdateRequest};

verus! {

/// What the engine waits for next.
#[derive(Debug, PartialEq, Eq)]
pub enum State {
    /// The listing reply is outstanding.
    AwaitRecords { zone: String, override_address: Option<String> },
    /// The discovery reply is outstanding; the selected record is kept.
    AwaitAddress { zone: String, record: DnsRecord },
    /// The update acknowledgement is outstanding.
    AwaitUpdate { old_content: String, new_content: String },
    /// The run is over; the outcome has been reported.
    Finished,
}

/// One reply from the outside, handed to the engine as plain values.
#[derive(Debug, PartialEq, Eq)]
pub enum Event {
    /// The listing call returned an envelope, or failed in transport.
    RecordsFetched(Result<ListEnvelope, TransportError>),
    /// The echo lookup returned an address, or failed.
    Discovered(Result<String, DiscoveryError>),
    /// The update call returned an envelope, or failed in transport.
    UpdateSent(Result<RecordEnvelope, TransportError>),
}

/// What the caller must do next.
#[derive(Clone, Debug, PartialEq, Eq)]
pub enum Action {
    /// Fetch the records of `zone` whose name equals `name`.
    FetchRecords { zone: String, name: String },
    /// Perform the echo lookup for the public address.
    Discover,
    /// Send `request` for the record `id` of `zone`.
    SendUpdate { zone: String, id: String, request: UpdateRequest },
    /// The run is over with this outcome; no further call is owed.
    Report(ReconciliationResult),
}

/// The transition every failure takes: report and stop.
pub open spec fn failed(stage: Stage, cause: Cause) -> (State, Action) {
    (State::Finished, Action::Report(ReconciliationResult::Failed { stage, cause }))
}

/// The comparison at the heart of a run: equal content ends the run as
/// `Unchanged`; differing content dispatches the one update call, with the
/// record's type, name and time to live preserved and only the content
/// replaced.
pub open spec fn compare_step(zone: String, record: DnsRecord, address: String) -> (State, Action) {
    if address@ == record.content@ {
        (State::Finished, Action::Report(ReconciliationResult::Unchanged))
    } else {
        (
            State::AwaitUpdate { old_content: record.content, new_content: address },
            Action::SendUpdate {
                zone,
                id: record.id,
                request: UpdateRequest {
                    record_type: record.record_type,
                    name: record.name,
                    content: address,
                    ttl: record.ttl,
                },
            },
        )
    }
}

/// The transition out of `AwaitRecords`: validate the envelope, demand at
/// least one record, select the first in provider order, and either go on
/// to discovery or, when an override address was supplied, compare at
/// once.  The engine never creates records: an empty listing is
/// `NotFound`.
pub open spec fn lookup_step(
    zone: String,
    override_address: Option<String>,
    reply: Result<ListEnvelope, TransportError>,
) -> (State, Action) {
    match reply {
        Err(transport) => failed(Stage::Lookup, Cause::Transport(transport)),
        Ok(env) => match lookup_records(env) {
            Err(cause) => failed(Stage::Lookup, cause),
            Ok(records) => if records@.len() == 0 {
                failed(Stage::Lookup, Cause::NotFound)
            } else {
                let record = records@[0];
                match override_address {
                    None => (State::AwaitAddress { zone, record }, Action::Discover),
                    Some(address) => compare_step(zone, record, address),
                }
            },
        },
    }
}

/// The transition out of `AwaitAddress`: a discovery failure ends the run
/// with the previously fetched record untouched; an address goes into the
/// comparison.
pub open spec fn discovery_step(
    zone: String,
    record: DnsRecord,
    reply: Result<String, DiscoveryError>,
) -> (State, Action) {
    match reply {
        Err(error) => failed(Stage::Discovery, Cause::Discovery(error)),
        Ok(address) => compare_step(zone, record, address),
    }
}

/// What the acknowledgement of the update call amounts to.  Nothing is
/// retried or rolled back: any failure is reported as it is.
pub open spec fn update_result(
    old_content: String,
    new_content: String,
    reply: Result<RecordEnvelope, TransportError>,
) -> ReconciliationResult {
    match reply {
        Err(transport) => ReconciliationResult::Failed {
            stage: Stage::Update,
            cause: Cause::Transport(transport),
        },
        Ok(env) => match update_outcome(env) {
            Err(cause) => ReconciliationResult::Failed { stage: Stage::Update, cause },
            Ok(_committed) => ReconciliationResult::Updated {
                old: old_content,
                new: new_content,
            },
        },
    }
}

/// The transition out of `AwaitUpdate`: report the acknowledgement's
/// outcome and stop.
pub open spec fn update_step(
    old_content: String,
    new_content: String,
    reply: Result<RecordEnvelope, TransportError>,
) -> (State, Action) {
    (State::Finished, Action::Report(update_result(old_content, new_content, reply)))
}

/// The machine's transition function.  `Engine::step` requires `accepts`,
/// so no other pairing of state and event is ever stepped.
pub open spec fn next(pre: State, event: Event) -> (State, Action) {
    match (pre, event) {
        (
            State::AwaitRecords { zone, override_address },
            Event::RecordsFetched(reply),
        ) => lookup_step(zone, override_address, reply),
        (State::AwaitAddress { zone, record }, Event::Discovered(reply)) => discovery_step(
            zone,
            record,
            reply,
        ),
        (
            State::AwaitUpdate { old_content, new_content },
            Event::UpdateSent(reply),
        ) => update_step(old_content, new_content, reply),
        _ => (pre, Action::Discover),
    }
}

/// The engine: nothing but the machine's current state.  Each run is a
/// fresh engine; nothing persists between invocations.
pub struct Engine {
    pub state: State,
}

impl Engine {
    /// Whether the engine is waiting for exactly this kind of event.
    pub open spec fn accepts(self, event: Event) -> bool {
        match (self.state, event) {
            (State::AwaitRecords { .. }, Event::RecordsFetched(_)) => true,
            (State::AwaitAddress { .. }, Event::Discovered(_)) => true,
            (State::AwaitUpdate { .. }, Event::UpdateSent(_)) => true,
            _ => false,
        }
    }

    /// Whether `step` may consume `event` now; callers outside the
    /// library check this before stepping.
    pub fn accepts_event(&self, event: &Event) -> (r: bool)
        ensures
            r == self.accepts(*event),
    {
        match (&self.state, event) {
            (State::AwaitRecords { .. }, Event::RecordsFetched(_)) => true,
            (State::AwaitAddress { .. }, Event::Discovered(_)) => true,
            (State::AwaitUpdate { .. }, Event::UpdateSent(_)) => true,
            _ => false,
        }
    }

    /// Start a run for `name` in `zone`.  The returned action asks for the
    /// candidate records; an override address, when present, will bypass
    /// discovery later.
    pub fn new(zone: String, name: String, override_address: Option<String>) -> (r: (
        Engine,
        Action,
    ))
        ensures
            r.0.state == (State::AwaitRecords { zone, override_address }),
            r.1 == (Action::FetchRecords { zone, name }),
    {
        let fetch_zone = zone.clone();
        (
            Engine { state: State::AwaitRecords { zone, override_address } },
            Action::FetchRecords { zone: fetch_zone, name },
        )
    }

    /// Consume one reply and decide the next action, exactly as [`next`]
    /// says.
    pub fn step(self, event: Event) -> (r: (Engine, Action))
        requires
            self.accepts(event),
        ensures
            (r.0.state, r.1) == next(self.state, event),
    {
        match (self.state, event) {
            (State::AwaitRecords { zone, override_address }, Event::RecordsFetched(reply)) => {
                match reply {
                    Err(transport) => Self::finish(Stage::Lookup, Cause::Transport(transport)),
                    Ok(env) => match env.into_records() {
                        Err(cause) => Self::finish(Stage::Lookup, cause),
                        Ok(mut records) => if records.len() == 0 {
                            Self::finish(Stage::Lookup, Cause::NotFound)
                        } else {
                            let record = records.remove(0);
                            match override_address {
                                None => (
                                    Engine { state: State::AwaitAddress { zone, record } },
                                    Action::Discover,
                                ),
                                Some(address) => Self::compare(zone, record, address),
                            }
                        },
                    },
                }
            },
            (State::AwaitAddress { zone, record }, Event::Discovered(reply)) => match reply {
                Err(error) => Self::finish(Stage::Discovery, Cause::Discovery(error)),
                Ok(address) => Self::compare(zone, record, address),
            },
            (State::AwaitUpdate { old_content, new_content }, Event::UpdateSent(reply)) => {
                match reply {
                    Err(transport) => Self::finish(Stage::Update, Cause::Transport(transport)),
                    Ok(env) => match env.into_record() {
                        Err(cause) => Self::finish(Stage::Update, cause),
                        Ok(_committed) => (
                            Engine { state: State::Finished },
                            Action::Report(
                                ReconciliationResult::Updated {
                                    old: old_content,
                                    new: new_content,
                                },
                            ),
                        ),
                    },
                }
            },
            _ => unreached(),
        }
    }

    /// Report a failure and stop.
    fn finish(stage: Stage, cause: Cause) -> (r: (Engine, Action))
        ensures
            (r.0.state, r.1) == failed(stage, cause),
    {
        (
            Engine { state: State::Finished },
            Action::Report(ReconciliationResult::Failed { stage, cause }),
        )
    }

    /// Compare the discovered address with the record's content.
    fn compare(zone: String, record: DnsRecord, address: String) -> (r: (Engine, Action))
        ensures
            (r.0.state, r.1) == compare_step(zone, record, address),
    {
        if address == record.content {
            (
                Engine { state: State::Finished },
                Action::Report(ReconciliationResult::Unchanged),
            )
        } else {
            let content = address.clone();
            let DnsRecord { id, record_type, name, content: old_content, ttl, proxied: _, zone_id: _ } =
                record;
            (
                Engine { state: State::AwaitUpdate { old_content, new_content: address } },
                Action::SendUpdate {
                    zone,
                    id,
                    request: UpdateRequest { record_type, name, content, ttl },
                },
            )
        }
    }
}

} // verus!

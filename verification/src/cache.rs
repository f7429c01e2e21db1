//! The daily cache: one stored answer of the sun-time service, reused for as
//! long as the calendar day lasts.
//!
//! The stored record lives outside the library. Reading it, asking the
//! service and writing the record back are done by the caller; this module
//! decides which of the three is due and what their results mean. A lookup
//! goes through [`FetchState`]: the caller performs the request that is
//! pending, reports what happened, and repeats until the lookup is done.

use vstd::prelude::*;

use crate::oracle::{reply_outcome, OracleError, OracleReply};
use crate::sun_times::SunTimes;
use crate::time::{CivilDate, Instant};

verus! {

/// One answer of the service together with the instant it was obtained at.
#[derive(Clone, Copy, Debug)]
pub struct CachedSunTimes {
    pub sun_times: SunTimes,
    pub fetched_at: Instant,
}

/// What was found where the record is kept.
#[derive(Clone, Copy, Debug)]
pub enum StoredRecord {
    /// Nothing has been stored yet.
    Absent,
    /// Something is stored that cannot be read as a record.
    Unreadable,
    /// The record of the latest successful request.
    Entry(CachedSunTimes),
}

/// Why a lookup ended without sun times.
#[derive(Clone, Copy, Debug, PartialEq, Eq, Structural)]
pub enum FetchError {
    /// The service gave none.
    Oracle(OracleError),
    /// The service gave them, but the record could not be written.
    Persist,
}

/// The outside work that a lookup is waiting for.
#[derive(Clone, Copy, Debug)]
pub enum FetchRequest {
    /// Read the stored record.
    ReadRecord,
    /// Ask the service for today's sun times.
    QueryOracle,
    /// Replace the stored record by this one.
    WriteRecord(CachedSunTimes),
}

/// The result of the work that was asked for.
#[derive(Clone, Debug)]
pub enum FetchEvent {
    /// The record was read.
    Loaded(StoredRecord),
    /// The service answered, or failed to.
    Replied(OracleReply),
    /// The record was written (`true`) or could not be (`false`).
    Stored(bool),
}

/// A lookup that is under way.
#[derive(Clone, Copy, Debug)]
pub enum FetchState {
    /// The record has yet to be read.
    Loading,
    /// The record was of no use, and the service has yet to answer.
    Querying,
    /// The service gave sun times, and the record has yet to be written.
    Storing(CachedSunTimes),
}

/// Where a lookup stands after an event.
#[derive(Clone, Copy, Debug)]
pub enum FetchProgress {
    /// More outside work is needed.
    Pending(FetchState),
    /// The lookup is over.
    Done(Result<SunTimes, FetchError>),
}

/// The sun times that the record holds for `today`, if any.
///
/// Only the date decides: a record of another day is of no use however
/// recently it was written, and a record of today is good however old.
pub open spec fn cached_for(record: StoredRecord, today: CivilDate) -> Option<SunTimes> {
    match record {
        StoredRecord::Entry(entry) => if entry.sun_times@.date == today {
            Some(entry.sun_times)
        } else {
            None
        },
        _ => None,
    }
}

/// The record to be written after `reply`, or the reason why none is.
pub open spec fn refreshed(reply: OracleReply, today: CivilDate, now: Instant) -> Result<
    CachedSunTimes,
    OracleError,
> {
    match reply_outcome(reply, today) {
        Ok(sun_times) => Ok(CachedSunTimes { sun_times, fetched_at: now }),
        Err(e) => Err(e),
    }
}

/// The request that a lookup in state `state` is waiting for.
pub open spec fn request_of(state: FetchState) -> FetchRequest {
    match state {
        FetchState::Loading => FetchRequest::ReadRecord,
        FetchState::Querying => FetchRequest::QueryOracle,
        FetchState::Storing(entry) => FetchRequest::WriteRecord(entry),
    }
}

/// Where a lookup in state `state` stands after `event`, when the clock
/// shows `now` and the calendar `today`.
///
/// An event that does not answer the pending request changes nothing.
pub open spec fn advanced(
    state: FetchState,
    event: FetchEvent,
    today: CivilDate,
    now: Instant,
) -> FetchProgress {
    match (state, event) {
        (FetchState::Loading, FetchEvent::Loaded(record)) => match cached_for(record, today) {
            Some(sun_times) => FetchProgress::Done(Ok(sun_times)),
            None => FetchProgress::Pending(FetchState::Querying),
        },
        (FetchState::Querying, FetchEvent::Replied(reply)) => match refreshed(reply, today, now) {
            Ok(entry) => FetchProgress::Pending(FetchState::Storing(entry)),
            Err(e) => FetchProgress::Done(Err(FetchError::Oracle(e))),
        },
        (FetchState::Storing(entry), FetchEvent::Stored(written)) => if written {
            FetchProgress::Done(Ok(entry.sun_times))
        } else {
            FetchProgress::Done(Err(FetchError::Persist))
        },
        _ => FetchProgress::Pending(state),
    }
}

impl StoredRecord {
    /// The sun times that the record holds for `today`, if any.
    pub fn lookup(&self, today: CivilDate) -> (hit: Option<SunTimes>)
        ensures
            hit == cached_for(*self, today),
    {
        match self {
            StoredRecord::Entry(entry) => {
                if entry.sun_times.date() == today {
                    Some(entry.sun_times)
                } else {
                    None
                }
            },
            _ => None,
        }
    }
}

impl CachedSunTimes {
    /// The record to be written after `reply`, stamped with the day `today`
    /// and the instant `now`, or the reason why `reply` yields none.
    pub fn refresh(reply: &OracleReply, today: CivilDate, now: Instant) -> (r: Result<
        CachedSunTimes,
        OracleError,
    >)
        ensures
            r == refreshed(*reply, today, now),
    {
        match SunTimes::from_reply(reply, today) {
            Ok(sun_times) => Ok(CachedSunTimes { sun_times, fetched_at: now }),
            Err(e) => Err(e),
        }
    }
}

impl FetchState {
    /// A lookup that has not done anything yet.
    pub fn start() -> (state: FetchState)
        ensures
            state == FetchState::Loading,
    {
        FetchState::Loading
    }

    /// The outside work that is due.
    pub fn request(&self) -> (request: FetchRequest)
        ensures
            request == request_of(*self),
    {
        match self {
            FetchState::Loading => FetchRequest::ReadRecord,
            FetchState::Querying => FetchRequest::QueryOracle,
            FetchState::Storing(entry) => FetchRequest::WriteRecord(*entry),
        }
    }

    /// Takes in the result of the work that was due.
    ///
    /// `today` and `now` are the calendar day and the instant at which the
    /// event is taken in.
    pub fn advance(self, event: &FetchEvent, today: CivilDate, now: Instant) -> (progress:
        FetchProgress)
        ensures
            progress == advanced(self, *event, today, now),
    {
        match self {
            FetchState::Loading => match event {
                FetchEvent::Loaded(record) => match record.lookup(today) {
                    Some(sun_times) => FetchProgress::Done(Ok(sun_times)),
                    None => FetchProgress::Pending(FetchState::Querying),
                },
                _ => FetchProgress::Pending(self),
            },
            FetchState::Querying => match event {
                FetchEvent::Replied(reply) => match CachedSunTimes::refresh(reply, today, now) {
                    Ok(entry) => FetchProgress::Pending(FetchState::Storing(entry)),
                    Err(e) => FetchProgress::Done(Err(FetchError::Oracle(e))),
                },
                _ => FetchProgress::Pending(self),
            },
            FetchState::Storing(entry) => match event {
                FetchEvent::Stored(written) => {
                    if *written {
                        FetchProgress::Done(Ok(entry.sun_times))
                    } else {
                        FetchProgress::Done(Err(FetchError::Persist))
                    }
                },
                _ => FetchProgress::Pending(self),
            },
        }
    }
}

/// What the outside world does during one lookup: the answer the service
/// would give if asked, whether a write would succeed, and the readings of
/// calendar and clock.
pub ghost struct Surroundings {
    pub reply: OracleReply,
    pub write_succeeds: bool,
    pub today: CivilDate,
    pub now: Instant,
}

/// A whole lookup, from the first request to the end.
pub ghost struct LookupRun {
    /// What the caller receives.
    pub result: Result<SunTimes, FetchError>,
    /// The stored record afterwards.
    pub record: StoredRecord,
    /// How often the service was asked.
    pub oracle_calls: nat,
}

/// What comes of carrying out `request` when the stored record is `record`.
pub open spec fn answer_to(
    request: FetchRequest,
    record: StoredRecord,
    world: Surroundings,
) -> FetchEvent {
    match request {
        FetchRequest::ReadRecord => FetchEvent::Loaded(record),
        FetchRequest::QueryOracle => FetchEvent::Replied(world.reply),
        FetchRequest::WriteRecord(_) => FetchEvent::Stored(world.write_succeeds),
    }
}

/// The stored record after `request` has been carried out: a write that
/// succeeds replaces it, and nothing else touches it.
pub open spec fn record_after(
    request: FetchRequest,
    record: StoredRecord,
    world: Surroundings,
) -> StoredRecord {
    match request {
        FetchRequest::WriteRecord(entry) => if world.write_succeeds {
            StoredRecord::Entry(entry)
        } else {
            record
        },
        _ => record,
    }
}

/// The number of requests that a lookup in state `state` can still make.
pub open spec fn requests_left(state: FetchState) -> nat {
    match state {
        FetchState::Loading => 3,
        FetchState::Querying => 2,
        FetchState::Storing(_) => 1,
    }
}

/// The rest of a lookup that stands in `state`: the pending request is
/// carried out, its result is taken in, and so on until the lookup is done.
/// Every request to ask the service counts as one call.
pub open spec fn lookup_from(
    state: FetchState,
    record: StoredRecord,
    world: Surroundings,
) -> LookupRun
    decreases requests_left(state),
{
    let request = request_of(state);
    let calls: nat = if request is QueryOracle {
        1
    } else {
        0
    };
    let record = record_after(request, record, world);
    match advanced(state, answer_to(request, record, world), world.today, world.now) {
        FetchProgress::Done(result) => LookupRun { result, record, oracle_calls: calls },
        FetchProgress::Pending(next) => {
            let rest = lookup_from(next, record, world);
            LookupRun { oracle_calls: calls + rest.oracle_calls, ..rest }
        },
    }
}

/// The lookup that starts on `record` and meets `world`.
pub open spec fn get_or_fetch(record: StoredRecord, world: Surroundings) -> LookupRun {
    lookup_from(FetchState::Loading, record, world)
}

/// A whole lookup, said directly.
///
/// A record of today is served as it is, without asking the service and
/// without touching the record. Otherwise the service is asked once. Its
/// failure is handed on and leaves the record alone. Its success is written
/// as the new record and served; if the write fails, the lookup fails and the
/// record stays as it was.
pub proof fn lemma_get_or_fetch(record: StoredRecord, world: Surroundings)
    ensures
        get_or_fetch(record, world) == match cached_for(record, world.today) {
            Some(sun_times) => LookupRun { result: Ok(sun_times), record, oracle_calls: 0 },
            None => match reply_outcome(world.reply, world.today) {
                Err(e) => LookupRun { result: Err(FetchError::Oracle(e)), record, oracle_calls: 1 },
                Ok(sun_times) => if world.write_succeeds {
                    LookupRun {
                        result: Ok(sun_times),
                        record: StoredRecord::Entry(
                            CachedSunTimes { sun_times, fetched_at: world.now },
                        ),
                        oracle_calls: 1,
                    }
                } else {
                    LookupRun { result: Err(FetchError::Persist), record, oracle_calls: 1 }
                },
            },
        },
{
    reveal_with_fuel(lookup_from, 3);
}

/// No lookup asks the service more than once.
pub proof fn lemma_at_most_one_call(record: StoredRecord, world: Surroundings)
    ensures
        get_or_fetch(record, world).oracle_calls <= 1,
        get_or_fetch(record, world).oracle_calls == 0 <==> cached_for(record, world.today) is Some,
{
    lemma_get_or_fetch(record, world);
}

/// A record dated another day is never served, however recently it was
/// obtained: the lookup asks the service.
pub proof fn lemma_stale_record_is_a_miss(entry: CachedSunTimes, world: Surroundings)
    requires
        entry.sun_times@.date != world.today,
    ensures
        cached_for(StoredRecord::Entry(entry), world.today) is None,
        get_or_fetch(StoredRecord::Entry(entry), world).oracle_calls == 1,
{
    lemma_get_or_fetch(StoredRecord::Entry(entry), world);
}

/// What is served from the record is always dated today.
pub proof fn lemma_hit_is_dated_today(record: StoredRecord, today: CivilDate)
    ensures
        cached_for(record, today) matches Some(sun_times) ==> sun_times@.date == today,
{
}

/// Two lookups on the same day, the second starting on the record that the
/// first one left, ask the service at most once between them, provided the
/// first one succeeded. They then serve the same sun times.
pub proof fn lemma_second_lookup_is_served(
    record: StoredRecord,
    first: Surroundings,
    second: Surroundings,
)
    requires
        first.today == second.today,
        get_or_fetch(record, first).result is Ok,
    ensures
        get_or_fetch(get_or_fetch(record, first).record, second).oracle_calls == 0,
        get_or_fetch(record, first).oracle_calls + get_or_fetch(
            get_or_fetch(record, first).record,
            second,
        ).oracle_calls <= 1,
        get_or_fetch(get_or_fetch(record, first).record, second).result == get_or_fetch(
            record,
            first,
        ).result,
        get_or_fetch(get_or_fetch(record, first).record, second).record == get_or_fetch(
            record,
            first,
        ).record,
{
    broadcast use crate::sun_times::lemma_view_of;

    lemma_get_or_fetch(record, first);
    lemma_get_or_fetch(get_or_fetch(record, first).record, second);
}

/// A lookup whose service call fails leaves the record exactly as it was.
pub proof fn lemma_failure_keeps_record(record: StoredRecord, world: Surroundings)
    requires
        get_or_fetch(record, world).result is Err,
    ensures
        get_or_fetch(record, world).record == record,
{
    lemma_get_or_fetch(record, world);
}

} // verus!

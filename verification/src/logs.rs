//! The audit log: a bounded record of security events, oldest first.
//!
//! The log holds at most [`MAX_EVENTS`] events. An event that does not fit
//! pushes out the oldest one, so the log is always the most recent part of all
//! that was ever appended to it.

use crate::models::{EventLog, EventModel, LogsData};
use vstd::prelude::*;
use vstd::string::*;

verus! {

/// The number of events that the audit log holds at most.
pub const MAX_EVENTS: usize = 1000;

/// The name of the document that stores the audit log.
pub const LOGS_FILE: &'static str = "logs.json";

/// The level of an event that reports an ordinary action.
pub const LEVEL_INFO: &'static str = "INFO";

/// The level of an event that reports a loss of trust.
pub const LEVEL_WARN: &'static str = "WARN";

/// The level of an event that reports a blocked device.
pub const LEVEL_BLOCK: &'static str = "BLOCK";

/// The level of an event that reports a failure.
pub const LEVEL_ERROR: &'static str = "ERROR";

/// The model of an [`AuditRequest`].
pub struct RequestModel {
    pub level: Seq<char>,
    pub message: Seq<char>,
    pub device_id: Option<Seq<char>>,
}

/// An event that an operation asks to have recorded: what [`add_event_log`]
/// takes. The operations on the trust store and on devices return one where
/// their action is to leave a trace, and the caller appends it to the log.
#[derive(Debug)]
pub struct AuditRequest {
    pub level: String,
    pub message: String,
    pub device_id: Option<String>,
}

impl View for AuditRequest {
    type V = RequestModel;

    open spec fn view(&self) -> RequestModel {
        RequestModel {
            level: self.level@,
            message: self.message@,
            device_id: self.device_id.deep_view(),
        }
    }
}

impl DeepView for AuditRequest {
    type V = RequestModel;

    open spec fn deep_view(&self) -> RequestModel {
        self@
    }
}

/// The counts of [`get_log_stats`].
#[derive(Debug, Clone, Copy, PartialEq, Eq, Structural)]
pub struct LogStats {
    /// All events, whatever their level.
    pub total: usize,
    pub info: usize,
    pub warn: usize,
    pub block: usize,
    pub error: usize,
}

/// The most recent `limit` items of `s`, or all of `s` where it holds no more.
pub open spec fn keep_latest<T>(s: Seq<T>, limit: nat) -> Seq<T> {
    if s.len() > limit {
        s.subrange(s.len() - limit, s.len() as int)
    } else {
        s
    }
}

/// The log after `event` was appended to `log`.
pub open spec fn appended(log: Seq<EventModel>, event: EventModel) -> Seq<EventModel> {
    keep_latest(log.push(event), MAX_EVENTS as nat)
}

/// The log after each of `events` was appended to `log`, first to last.
pub open spec fn appended_all(log: Seq<EventModel>, events: Seq<EventModel>) -> Seq<EventModel>
    decreases events.len(),
{
    if events.len() == 0 {
        log
    } else {
        appended(appended_all(log, events.drop_last()), events.last())
    }
}

/// Whether an event has a given level.
pub open spec fn has_level(level: Seq<char>) -> spec_fn(EventModel) -> bool {
    |event: EventModel| event.level == level
}

/// The number of events of `log` at `level`.
pub open spec fn count_level(log: Seq<EventModel>, level: Seq<char>) -> nat {
    log.filter(has_level(level)).len()
}

/// Makes a fresh event id: the text of `uuid::Uuid::new_v4`, a random
/// identifier. Nothing is claimed of the text; two calls may give any two
/// texts.
#[verifier::external_body]
fn fresh_event_id() -> String {
    uuid::Uuid::new_v4().to_string()
}

/// Reads the local wall clock with `chrono::Local::now` and prints the time
/// of day to the second, as `HH:MM:SS`. Nothing is claimed of the text.
#[verifier::external_body]
fn time_of_day() -> String {
    chrono::Local::now().format("%H:%M:%S").to_string()
}

/// Reads the clock with `chrono::Utc::now` and prints date and time as
/// `YYYYMMDD_HHMMSS`. Nothing is claimed of the text.
#[verifier::external_body]
fn export_stamp() -> String {
    chrono::Utc::now().format("%Y%m%d_%H%M%S").to_string()
}

/// Appends an event whose id and time the caller supplies, and returns a copy
/// of it. Where the log then holds more than [`MAX_EVENTS`] events, the
/// oldest leave until it holds exactly that many.
pub fn record_event(
    data: &mut LogsData,
    id: String,
    timestamp: String,
    level: String,
    message: String,
    device_id: Option<String>,
) -> (event: EventLog)
    ensures
        event@ == (EventModel {
            id: id@,
            timestamp: timestamp@,
            level: level@,
            message: message@,
            device_id: device_id.deep_view(),
        }),
        final(data)@ == appended(old(data)@, event@),
        final(data)@.len() <= MAX_EVENTS,
        final(data)@.last() == event@,
{
    let event = EventLog { id, timestamp, level, message, device_id };
    let copy = event.clone();
    data.events.push(event);
    let held = data.events.len();
    if held > MAX_EVENTS {
        let latest = data.events.split_off(held - MAX_EVENTS);
        data.events = latest;
    }
    copy
}

/// Appends an event with a fresh id and the current time of day, and returns
/// a copy of it. The log changes as in [`record_event`].
pub fn add_event_log(
    data: &mut LogsData,
    level: String,
    message: String,
    device_id: Option<String>,
) -> (event: EventLog)
    ensures
        event@.level == level@,
        event@.message == message@,
        event@.device_id == device_id.deep_view(),
        final(data)@ == appended(old(data)@, event@),
        final(data)@.len() <= MAX_EVENTS,
        final(data)@.last() == event@,
{
    let id = fresh_event_id();
    let timestamp = time_of_day();
    record_event(data, id, timestamp, level, message, device_id)
}

/// Appends the event that an operation asked for.
pub fn record_request(data: &mut LogsData, request: AuditRequest) -> (event: EventLog)
    ensures
        event@.level == request@.level,
        event@.message == request@.message,
        event@.device_id == request@.device_id,
        final(data)@ == appended(old(data)@, event@),
        final(data)@.len() <= MAX_EVENTS,
        final(data)@.last() == event@,
{
    add_event_log(data, request.level, request.message, request.device_id)
}

/// The events of the log, newest first.
pub fn get_event_logs(data: LogsData) -> (events: Vec<EventLog>)
    ensures
        events.deep_view() == data@.reverse(),
{
    let mut rest = data.events;
    let mut events: Vec<EventLog> = Vec::new();
    let ghost all = rest@;
    while rest.len() > 0
        invariant
            rest@ == all.take(rest.len() as int),
            rest.len() <= all.len(),
            events.len() == all.len() - rest.len(),
            forall|j: int| 0 <= j < events.len() ==> events@[j] == all[all.len() - 1 - j],
        decreases rest.len(),
    {
        let newest = rest.pop().unwrap();
        events.push(newest);
    }
    events
}

/// Empties the log.
pub fn clear_logs(data: &mut LogsData)
    ensures
        final(data)@ == Seq::<EventModel>::empty(),
{
    data.events = Vec::new();
}

/// Counts the events of the log, all of them and those at each of the four
/// levels, in one pass. An event at another level counts in `total` only.
pub fn get_log_stats(data: &LogsData) -> (stats: LogStats)
    ensures
        stats.total == data@.len(),
        stats.info == count_level(data@, LEVEL_INFO@),
        stats.warn == count_level(data@, LEVEL_WARN@),
        stats.block == count_level(data@, LEVEL_BLOCK@),
        stats.error == count_level(data@, LEVEL_ERROR@),
{
    let info_level = LEVEL_INFO.to_string();
    let warn_level = LEVEL_WARN.to_string();
    let block_level = LEVEL_BLOCK.to_string();
    let error_level = LEVEL_ERROR.to_string();
    let mut stats = LogStats { total: data.events.len(), info: 0, warn: 0, block: 0, error: 0 };
    let mut i: usize = 0;
    while i < data.events.len()
        invariant
            i <= data.events.len(),
            data@.len() == data.events.len(),
            info_level@ == LEVEL_INFO@,
            warn_level@ == LEVEL_WARN@,
            block_level@ == LEVEL_BLOCK@,
            error_level@ == LEVEL_ERROR@,
            stats.total == data.events.len(),
            stats.info == count_level(data@.take(i as int), LEVEL_INFO@) <= i,
            stats.warn == count_level(data@.take(i as int), LEVEL_WARN@) <= i,
            stats.block == count_level(data@.take(i as int), LEVEL_BLOCK@) <= i,
            stats.error == count_level(data@.take(i as int), LEVEL_ERROR@) <= i,
        decreases data.events.len() - i,
    {
        let event = &data.events[i];
        proof {
            let seen = data@.take(i as int);
            assert(data@.take(i + 1) =~= seen.push(event@));
            seen.lemma_filter_push(event@, has_level(LEVEL_INFO@));
            seen.lemma_filter_push(event@, has_level(LEVEL_WARN@));
            seen.lemma_filter_push(event@, has_level(LEVEL_BLOCK@));
            seen.lemma_filter_push(event@, has_level(LEVEL_ERROR@));
        }
        if event.level == info_level {
            stats.info = stats.info + 1;
        }
        if event.level == warn_level {
            stats.warn = stats.warn + 1;
        }
        if event.level == block_level {
            stats.block = stats.block + 1;
        }
        if event.level == error_level {
            stats.error = stats.error + 1;
        }
        i = i + 1;
    }
    assert(data@.take(i as int) =~= data@);
    stats
}

/// The name of the file that a snapshot taken at `stamp` is written to.
pub open spec fn export_name(stamp: Seq<char>) -> Seq<char> {
    "sentinelguard_logs_"@ + stamp + ".json"@
}

/// The name of the file for a snapshot of the log, given the time of the
/// snapshot as text.
pub fn export_file_name_at(stamp: &str) -> (name: String)
    ensures
        name@ == export_name(stamp@),
{
    "sentinelguard_logs_".to_string().concat(stamp).concat(".json")
}

/// The name of the file for a snapshot of the log taken now: that of
/// [`export_file_name_at`] for the current date and time.
pub fn export_file_name() -> (name: String)
    ensures
        exists|stamp: Seq<char>| name@ == export_name(stamp),
{
    let stamp = export_stamp();
    export_file_name_at(stamp.as_str())
}

/// The log never grows past its bound: whatever it held, after an append it
/// holds at most [`MAX_EVENTS`] events, and the appended event is the last.
pub proof fn lemma_append_bounded(log: Seq<EventModel>, event: EventModel)
    ensures
        appended(log, event).len() <= MAX_EVENTS,
        appended(log, event).len() >= 1,
        appended(log, event).last() == event,
{
}

/// Eviction is first in, first out: an append keeps the order of the events,
/// and what leaves the log is a run of its oldest events, as many as the
/// bound is exceeded by, and nothing else.
pub proof fn lemma_append_evicts_oldest(log: Seq<EventModel>, event: EventModel)
    ensures
        ({
            let all = log.push(event);
            let kept = appended(log, event);
            let evicted = all.len() - kept.len();
            &&& evicted == if all.len() > MAX_EVENTS { all.len() - MAX_EVENTS } else { 0 }
            &&& all == all.take(evicted) + kept
        }),
{
}

/// Of a log within its bound, an append evicts at most one event, the oldest,
/// and only when the log is full.
pub proof fn lemma_append_to_valid_log(log: Seq<EventModel>, event: EventModel)
    requires
        log.len() <= MAX_EVENTS,
    ensures
        log.len() < MAX_EVENTS ==> appended(log, event) == log.push(event),
        log.len() == MAX_EVENTS ==> appended(log, event) == log.drop_first().push(event),
{
}

/// After any number of appends to a log within its bound, the log is exactly
/// the most recent [`MAX_EVENTS`] of what it held and what was appended, in
/// the order of appending.
pub proof fn lemma_appends_keep_most_recent(log: Seq<EventModel>, events: Seq<EventModel>)
    requires
        log.len() <= MAX_EVENTS,
    ensures
        appended_all(log, events) == keep_latest(log + events, MAX_EVENTS as nat),
        appended_all(log, events).len() <= MAX_EVENTS,
    decreases events.len(),
{
    if events.len() > 0 {
        let earlier = events.drop_last();
        lemma_appends_keep_most_recent(log, earlier);
        assert(appended(keep_latest(log + earlier, MAX_EVENTS as nat), events.last())
            =~= keep_latest(log + events, MAX_EVENTS as nat));
    }
}

/// A listing is newest first: it shows the events of a log in the reverse
/// of their stored order, so that the event appended last comes first.
pub proof fn lemma_listing_newest_first(log: Seq<EventModel>, event: EventModel)
    ensures
        log.reverse().len() == log.len(),
        forall|i: int| 0 <= i < log.len() ==> #[trigger] log.reverse()[i] == log[log.len() - 1 - i],
        appended(log, event).reverse()[0] == event,
{
}

/// An append raises the count of the event's own level by one and the total
/// by one, and leaves the counts of the other levels, as long as the log has
/// room.
pub proof fn lemma_append_counts(log: Seq<EventModel>, event: EventModel, level: Seq<char>)
    requires
        log.len() < MAX_EVENTS,
    ensures
        appended(log, event).len() == log.len() + 1,
        count_level(appended(log, event), level) == count_level(log, level) + if event.level
            == level {
            1nat
        } else {
            0nat
        },
{
    log.lemma_filter_push(event, has_level(level));
}

} // verus!

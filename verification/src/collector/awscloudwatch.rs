//! The CloudWatch poller: what it asks of the service at each poll, and what
//! records it makes of the events that come back.

use vstd::prelude::*;
use crate::models::{default_timestamp, is_utc_stamp, views, LogEntry, LogEntryView};

verus! {

/// Which log group, and optionally which stream of it, is polled.
#[derive(Debug, Clone, PartialEq, Eq)]
pub struct AWSCloudWatchConfig {
    pub log_group_name: String,
    pub log_stream_name: Option<String>,
}

/// What one poll asks of the service.
#[derive(Debug, Clone, PartialEq, Eq)]
pub struct FilterRequest {
    pub log_group_name: String,
    pub log_stream_names: Option<Vec<String>>,
    pub limit: i64,
}

/// What the service reports of one event.
#[derive(Debug, Clone, PartialEq, Eq)]
pub struct LogEvent {
    pub message: Option<String>,
    /// Milliseconds since the start of 1970, UTC.
    pub timestamp: Option<i64>,
}

/// Seconds between two polls.
pub const POLL_INTERVAL_SECS: u64 = 10;

/// The most events that one poll asks for.
pub const EVENTS_PER_POLL: i64 = 50;

/// The RFC 3339 text that `chrono` writes for the instant `millis`
/// milliseconds after the start of 1970, UTC, or `None` where `chrono` cannot
/// hold that instant.
pub uninterp spec fn rfc3339_of_millis(millis: int) -> Option<Seq<char>>;

/// `chrono`'s `DateTime::from_timestamp_millis` written by
/// `DateTime::to_rfc3339`: the text for an instant, or `None` for an instant
/// out of `chrono`'s range. The result is a function of the number alone,
/// named [`rfc3339_of_millis`].
#[verifier::external_body]
fn rfc3339_from_millis(millis: i64) -> (r: Option<String>)
    ensures
        match r {
            Some(text) => rfc3339_of_millis(millis as int) == Some(text@),
            None => rfc3339_of_millis(millis as int) is None,
        },
{
    match chrono::DateTime::from_timestamp_millis(millis) {
        Some(instant) => Some(instant.to_rfc3339()),
        None => None,
    }
}

/// The timestamp of an event that is read at the time `now`: the event's own
/// instant where it has one that can be written, and `now` otherwise.
pub open spec fn event_timestamp(timestamp: Option<i64>, now: Seq<char>) -> Seq<char> {
    match timestamp {
        Some(millis) => match rfc3339_of_millis(millis as int) {
            Some(text) => text,
            None => now,
        },
        None => now,
    }
}

/// The record for an event of the log group `group`, read at the time `now`:
/// none for an event without message, else the message at level `INFO`, with
/// the group as source.
pub open spec fn event_record(group: Seq<char>, event: LogEvent, now: Seq<char>) -> Option<
    LogEntryView,
> {
    match event.message {
        Some(message) => Some(
            LogEntryView {
                source: group,
                level: "INFO"@,
                message: message@,
                timestamp: event_timestamp(event.timestamp, now),
            },
        ),
        None => None,
    }
}

/// The records for the events of one poll, in the order of the events.
pub open spec fn event_records(group: Seq<char>, events: Seq<LogEvent>, now: Seq<char>) -> Seq<
    LogEntryView,
>
    decreases events.len(),
{
    if events.len() == 0 {
        Seq::empty()
    } else {
        let front = event_records(group, events.drop_last(), now);
        match event_record(group, events.last(), now) {
            Some(record) => front.push(record),
            None => front,
        }
    }
}

/// What a poll asks of the service: up to 50 events of the configured group,
/// from the configured stream alone where one is configured.
pub fn filter_request(config: &AWSCloudWatchConfig) -> (r: FilterRequest)
    ensures
        r.log_group_name@ == config.log_group_name@,
        r.limit == EVENTS_PER_POLL,
        match config.log_stream_name {
            Some(stream) => r.log_stream_names is Some && r.log_stream_names.unwrap()@.len() == 1
                && r.log_stream_names.unwrap()@[0]@ == stream@,
            None => r.log_stream_names is None,
        },
{
    FilterRequest {
        log_group_name: config.log_group_name.clone(),
        log_stream_names: match &config.log_stream_name {
            Some(stream) => Some(vec![stream.clone()]),
            None => None,
        },
        limit: EVENTS_PER_POLL,
    }
}

/// Makes the records for the events of one poll, at the time `now`.
pub fn poll_records_at(config: &AWSCloudWatchConfig, events: &Vec<LogEvent>, now: &str) -> (r: Vec<
    LogEntry,
>)
    ensures
        views(r@) == event_records(config.log_group_name@, events@, now@),
{
    let mut out: Vec<LogEntry> = Vec::new();
    let mut i: usize = 0;
    while i < events.len()
        invariant
            i <= events.len(),
            views(out@) == event_records(config.log_group_name@, events@.take(i as int), now@),
        decreases events.len() - i,
    {
        proof {
            assert(events@.take(i + 1).drop_last() =~= events@.take(i as int));
            assert(events@.take(i + 1).last() == events@[i as int]);
        }
        let event = &events[i];
        match &event.message {
            Some(message) => {
                let timestamp = match event.timestamp {
                    Some(millis) => match rfc3339_from_millis(millis) {
                        Some(text) => text,
                        None => now.to_owned(),
                    },
                    None => now.to_owned(),
                };
                let ghost before = out@;
                let entry = LogEntry {
                    source: config.log_group_name.clone(),
                    level: "INFO".to_owned(),
                    message: message.clone(),
                    timestamp,
                };
                out.push(entry);
                proof {
                    assert(views(out@) =~= views(before).push(entry@));
                }
            },
            None => {},
        }
        i += 1;
    }
    proof {
        assert(events@.take(events.len() as int) =~= events@);
    }
    out
}

/// Makes the records for the events of one poll, with the time of this call
/// for the events that carry no instant. Whatever the clock says, the records
/// are those of [`poll_records_at`] at some time that the clock wrote.
pub fn poll_records(config: &AWSCloudWatchConfig, events: &Vec<LogEvent>) -> (r: Vec<LogEntry>)
    ensures
        exists|now: Seq<char>|
            is_utc_stamp(now) && views(r@)
                == #[trigger] event_records(config.log_group_name@, events@, now),
{
    let now = default_timestamp();
    poll_records_at(config, events, now.as_str())
}

} // verus!

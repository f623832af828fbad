//! The Cloud Logging poller: what records it makes of the entries of a poll.

use vstd::prelude::*;
use crate::models::{default_timestamp, is_utc_stamp, views, LogEntry, LogEntryView};

verus! {

/// Which project is polled.
#[derive(Debug, Clone, PartialEq, Eq)]
pub struct GCPLoggingConfig {
    pub project_id: String,
}

/// What the service reports of one entry.
#[derive(Debug, Clone, PartialEq, Eq)]
pub struct CloudLogEntry {
    pub severity: Option<String>,
    pub text_payload: Option<String>,
    pub timestamp: Option<String>,
}

/// Seconds between two polls.
pub const POLL_INTERVAL_SECS: u64 = 10;

/// The text of `field`, or `fallback` where the field is absent.
pub open spec fn text_or(field: Option<String>, fallback: Seq<char>) -> Seq<char> {
    match field {
        Some(text) => text@,
        None => fallback,
    }
}

/// The record for an entry that is read at the time `now`: the source is
/// `GCP`, an absent severity is `INFO`, an absent text is empty, and an absent
/// timestamp is `now`.
pub open spec fn entry_record(entry: CloudLogEntry, now: Seq<char>) -> LogEntryView {
    LogEntryView {
        source: "GCP"@,
        level: text_or(entry.severity, "INFO"@),
        message: text_or(entry.text_payload, Seq::empty()),
        timestamp: text_or(entry.timestamp, now),
    }
}

/// The records for the entries of one poll, in the order of the entries.
pub open spec fn entry_records(entries: Seq<CloudLogEntry>, now: Seq<char>) -> Seq<LogEntryView> {
    Seq::new(entries.len(), |i: int| entry_record(entries[i], now))
}

/// Makes the record for one entry, at the time `now`.
pub fn entry_to_record(entry: CloudLogEntry, now: &str) -> (r: LogEntry)
    ensures
        r@ == entry_record(entry, now@),
{
    LogEntry {
        source: "GCP".to_owned(),
        level: match entry.severity {
            Some(text) => text,
            None => "INFO".to_owned(),
        },
        message: match entry.text_payload {
            Some(text) => text,
            None => String::new(),
        },
        timestamp: match entry.timestamp {
            Some(text) => text,
            None => now.to_owned(),
        },
    }
}

/// Makes the records for the entries of one poll, at the time `now`: one for
/// each entry, in their order.
pub fn poll_records_at(entries: Vec<CloudLogEntry>, now: &str) -> (r: Vec<LogEntry>)
    ensures
        views(r@) == entry_records(entries@, now@),
{
    let ghost all = entries@;
    let mut out: Vec<LogEntry> = Vec::new();
    for entry in it: entries
        invariant
            it.seq() == all,
            out@.len() == it.index(),
            forall|k: int|
                0 <= k < out@.len() ==> (#[trigger] out@[k])@ == entry_record(all[k], now@),
    {
        out.push(entry_to_record(entry, now));
    }
    proof {
        assert(views(out@) =~= entry_records(all, now@));
    }
    out
}

/// Makes the records for the entries of one poll, with the time of this call
/// for the entries that carry no timestamp. Whatever the clock says, the
/// records are those of [`poll_records_at`] at some time that the clock wrote.
pub fn poll_records(entries: Vec<CloudLogEntry>) -> (r: Vec<LogEntry>)
    ensures
        exists|now: Seq<char>|
            is_utc_stamp(now) && views(r@) == #[trigger] entry_records(entries@, now),
{
    let now = default_timestamp();
    poll_records_at(entries, now.as_str())
}

} // verus!

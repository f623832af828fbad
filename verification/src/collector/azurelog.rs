//! The Log Analytics poller: what records it makes of the answer to a query.

use vstd::prelude::*;
use crate::json::{json_model, value_items, Json};
use crate::models::{default_timestamp, is_utc_stamp, views, LogEntry, LogEntryView};
use crate::wire::{records_from_values, records_of};

verus! {

/// Which workspace is polled, and with which query.
#[derive(Debug, Clone, PartialEq, Eq)]
pub struct AzureLogConfig {
    pub workspace_id: String,
    pub query: String,
}

/// Seconds between two polls.
pub const POLL_INTERVAL_SECS: u64 = 10;

/// The records that the answer to a query carries when it is read at the time
/// `now`: those of an array whose items are all record-shaped, and none for
/// any other answer.
pub open spec fn answer_records(answer: Json, now: Seq<char>) -> Seq<LogEntryView> {
    match answer {
        Json::Array(items) => match records_of(items, now) {
            Some(records) => records,
            None => Seq::empty(),
        },
        _ => Seq::empty(),
    }
}

/// Makes the records of the answer to a query, at the time `now`.
pub fn query_records_at(answer: &serde_json::Value, now: &str) -> (r: Vec<LogEntry>)
    ensures
        views(r@) == answer_records(json_model(*answer), now@),
{
    let found = match value_items(answer) {
        Some(items) => records_from_values(items, now),
        None => None,
    };
    match found {
        Some(records) => records,
        None => {
            let records: Vec<LogEntry> = Vec::new();
            proof {
                assert(views(records@) =~= Seq::<LogEntryView>::empty());
            }
            records
        },
    }
}

/// Makes the records of the answer to a query, with the time of this call for
/// the items that carry no timestamp. Whatever the clock says, the records
/// are those of [`query_records_at`] at some time that the clock wrote.
pub fn query_records(answer: &serde_json::Value) -> (r: Vec<LogEntry>)
    ensures
        exists|now: Seq<char>|
            is_utc_stamp(now) && views(r@) == #[trigger] answer_records(json_model(*answer), now),
{
    let now = default_timestamp();
    query_records_at(answer, now.as_str())
}

} // verus!

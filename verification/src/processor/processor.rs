//! Normalisation of records: a pure step on each record by itself.

use vstd::prelude::*;
use crate::models::{views, LogEntry, LogEntryView};
use crate::text::{trim, trimmed, uppercase_text, uppercased};

verus! {

/// A record in normal form: the message without the whitespace round it, the
/// level in upper case, source and timestamp as they were.
pub open spec fn normalized(record: LogEntryView) -> LogEntryView {
    LogEntryView {
        source: record.source,
        level: uppercased(record.level),
        message: trimmed(record.message),
        timestamp: record.timestamp,
    }
}

/// Brings one record into normal form.
pub fn normalize_record(log: LogEntry) -> (r: LogEntry)
    ensures
        r@ == normalized(log@),
{
    let message = trim(log.message.as_str()).to_owned();
    let level = uppercase_text(log.level.as_str());
    LogEntry { source: log.source, level, message, timestamp: log.timestamp }
}

/// The normal forms of a batch, in order.
pub open spec fn normalized_batch(batch: Seq<LogEntryView>) -> Seq<LogEntryView> {
    Seq::new(batch.len(), |i: int| normalized(batch[i]))
}

/// Brings every record of a batch into normal form. The batch keeps its
/// length and its order.
pub fn process_logs(logs: Vec<LogEntry>) -> (r: Vec<LogEntry>)
    ensures
        views(r@) == normalized_batch(views(logs@)),
{
    let ghost before = logs@;
    let mut out: Vec<LogEntry> = Vec::new();
    for log in it: logs
        invariant
            it.seq() == before,
            out@.len() == it.index(),
            forall|i: int| 0 <= i < out@.len() ==> (#[trigger] out@[i])@ == normalized(before[i]@),
    {
        out.push(normalize_record(log));
    }
    proof {
        assert(views(out@) =~= normalized_batch(views(before)));
    }
    out
}

} // verus!

//! The normalized record: the one data shape that flows through the pipeline.

use vstd::prelude::*;

verus! {

/// One log record, with all four fields populated.
#[derive(Debug, Clone, PartialEq, Eq)]
pub struct LogEntry {
    pub source: String,
    pub level: String,
    pub message: String,
    pub timestamp: String,
}

/// The mathematical value of a [`LogEntry`]: its four texts.
pub struct LogEntryView {
    pub source: Seq<char>,
    pub level: Seq<char>,
    pub message: Seq<char>,
    pub timestamp: Seq<char>,
}

impl View for LogEntry {
    type V = LogEntryView;

    open spec fn view(&self) -> LogEntryView {
        LogEntryView {
            source: self.source@,
            level: self.level@,
            message: self.message@,
            timestamp: self.timestamp@,
        }
    }
}

/// The view of a record that may be absent.
pub open spec fn view_of(entry: Option<LogEntry>) -> Option<LogEntryView> {
    match entry {
        Some(entry) => Some(entry@),
        None => None,
    }
}

/// The views of a run of records, in order.
pub open spec fn views(records: Seq<LogEntry>) -> Seq<LogEntryView> {
    Seq::new(records.len(), |i: int| records[i]@)
}

/// The view of a batch that may be absent.
pub open spec fn batch_view(batch: Option<Vec<LogEntry>>) -> Option<Seq<LogEntryView>> {
    match batch {
        Some(records) => Some(views(records@)),
        None => None,
    }
}

/// Whether `text` has the outline of a time in UTC as `chrono` writes it in
/// RFC 3339: it is long enough for a date, a time of day and an offset, and
/// it ends with the offset `+00:00`.
pub open spec fn is_utc_stamp(text: Seq<char>) -> bool {
    text.len() >= 25 && text.subrange(text.len() - 6, text.len() as int) == "+00:00"@
}

/// `chrono`'s `Utc::now` written by `DateTime::to_rfc3339`: the time of the
/// call. It differs from call to call; what holds of every one is the outline
/// of the text: a date, the letter `T`, a time of day and the offset
/// `+00:00`.
#[verifier::external_body]
pub(crate) fn default_timestamp() -> (r: String)
    ensures
        is_utc_stamp(r@),
{
    chrono::Utc::now().to_rfc3339()
}

} // verus!

//! The broker consumer: the payload of each message is one JSON record.

use vstd::prelude::*;
use vstd::utf8::encode_utf8;
use crate::models::{default_timestamp, is_utc_stamp, LogEntry, LogEntryView};
use crate::text::{utf8_lossy, utf8_text_lossy};
use crate::wire::{decoded_record, parse_text_record, record_outcome, DecodeError};

verus! {

/// The outcome of reading a message at the time `now`: nothing for a message
/// without payload, and else what the payload gives when it is taken as
/// text, with U+FFFD for what is not UTF-8 in it, and the text as a JSON
/// record.
pub open spec fn message_outcome(payload: Option<&[u8]>, now: Seq<char>) -> Option<
    Result<LogEntryView, DecodeError>,
> {
    match payload {
        Some(bytes) => Some(decoded_record(encode_utf8(utf8_lossy(bytes@)), now)),
        None => None,
    }
}

/// The view of the outcome of reading a message.
pub open spec fn outcome_view(r: Option<Result<LogEntry, DecodeError>>) -> Option<
    Result<LogEntryView, DecodeError>,
> {
    match r {
        Some(outcome) => Some(record_outcome(outcome)),
        None => None,
    }
}

/// Reads one message as a record, at the time `now`. A malformed payload
/// gives an error and no record, a message without payload gives nothing.
pub fn message_record_at(payload: Option<&[u8]>, now: &str) -> (r: Option<
    Result<LogEntry, DecodeError>,
>)
    ensures
        outcome_view(r) == message_outcome(payload, now@),
{
    match payload {
        Some(bytes) => {
            let text = utf8_text_lossy(bytes);
            Some(parse_text_record(text.as_str(), now))
        },
        None => None,
    }
}

/// Reads one message as a record, and fills a missing timestamp with the time
/// of this call. Whatever the clock says, the outcome is that of
/// [`message_record_at`] at some time that the clock wrote.
pub fn message_record(payload: Option<&[u8]>) -> (r: Option<Result<LogEntry, DecodeError>>)
    ensures
        exists|now: Seq<char>|
            is_utc_stamp(now) && outcome_view(r) == #[trigger] message_outcome(payload, now),
{
    let now = default_timestamp();
    message_record_at(payload, now.as_str())
}

} // verus!

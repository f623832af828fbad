//! The TCP ingress: each line of a connection is one JSON record.

use vstd::prelude::*;
use vstd::utf8::encode_utf8;
use crate::models::{is_utc_stamp, LogEntry};
use crate::wire::{decoded_record, parse_text_record, receive_record, record_outcome, DecodeError};

verus! {

/// Reads one line of a connection as a record, at the time `now`. A
/// malformed line gives an error and no record; the next line is read as if
/// it had not been there.
pub fn line_record_at(line: &str, now: &str) -> (r: Result<LogEntry, DecodeError>)
    ensures
        record_outcome(r) == decoded_record(encode_utf8(line@), now@),
{
    parse_text_record(line, now)
}

/// Reads one line of a connection as a record, and fills a missing timestamp
/// with the time of this call. Whatever the clock says, the outcome is that
/// of [`line_record_at`] at some time that the clock wrote.
pub fn line_record(line: &str) -> (r: Result<LogEntry, DecodeError>)
    ensures
        exists|now: Seq<char>|
            is_utc_stamp(now) && record_outcome(r)
                == #[trigger] decoded_record(encode_utf8(line@), now),
{
    receive_record(line.as_bytes())
}

} // verus!

//! The UDP ingress: each datagram is one JSON record.

use vstd::prelude::*;
use vstd::utf8::encode_utf8;
use crate::models::{default_timestamp, is_utc_stamp, LogEntry};
use crate::text::{utf8_lossy, utf8_text_lossy};
use crate::wire::{decoded_record, parse_text_record, record_outcome, DecodeError};

verus! {

/// The most bytes of a datagram that are read.
pub const DATAGRAM_BUFFER_SIZE: usize = 1024;

/// Reads one datagram as a record, at the time `now`: the datagram is taken
/// as text, with U+FFFD for what is not UTF-8 in it, and the text as a JSON
/// record. A malformed datagram gives an error and no record.
pub fn datagram_record_at(datagram: &[u8], now: &str) -> (r: Result<LogEntry, DecodeError>)
    ensures
        record_outcome(r) == decoded_record(encode_utf8(utf8_lossy(datagram@)), now@),
{
    let text = utf8_text_lossy(datagram);
    parse_text_record(text.as_str(), now)
}

/// Reads one datagram as a record, and fills a missing timestamp with the
/// time of this call. Whatever the clock says, the outcome is that of
/// [`datagram_record_at`] at some time that the clock wrote.
pub fn datagram_record(datagram: &[u8]) -> (r: Result<LogEntry, DecodeError>)
    ensures
        exists|now: Seq<char>|
            is_utc_stamp(now) && record_outcome(r) == #[trigger] decoded_record(
                encode_utf8(utf8_lossy(datagram@)),
                now,
            ),
{
    let now = default_timestamp();
    datagram_record_at(datagram, now.as_str())
}

} // verus!

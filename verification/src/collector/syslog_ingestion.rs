//! The syslog ingress: each datagram is a line of three parts with whitespace
//! between them: the severity token, a header token that is not read, and
//! the message, which is all that follows.

use vstd::prelude::*;
use vstd::utf8::{decode_utf8, valid_utf8};
use crate::models::{default_timestamp, is_utc_stamp, view_of, LogEntry, LogEntryView};
use crate::text::{chars_of, content_start, skip_token, skip_whitespace, token_end, utf8_text};

verus! {

/// The most bytes of a datagram that are read.
pub const DATAGRAM_BUFFER_SIZE: usize = 2048;

/// The text that stands for a datagram that is not UTF-8.
pub open spec fn invalid_text() -> Seq<char> {
    "<invalid UTF-8>"@
}

/// The text of a datagram: what it encodes, or [`invalid_text`] where it is
/// not UTF-8.
pub open spec fn datagram_text(datagram: Seq<u8>) -> Seq<char> {
    if valid_utf8(datagram) {
        decode_utf8(datagram)
    } else {
        invalid_text()
    }
}

/// Where the severity token of `msg` begins: at its first character that is
/// no whitespace.
pub open spec fn level_start(msg: Seq<char>) -> int {
    content_start(msg, 0)
}

/// Where the severity token of `msg` ends.
pub open spec fn level_end(msg: Seq<char>) -> int {
    token_end(msg, level_start(msg))
}

/// Where the header token of `msg` ends.
pub open spec fn header_end(msg: Seq<char>) -> int {
    token_end(msg, content_start(msg, level_end(msg)))
}

/// Where the message of `msg` begins: at the first character behind the
/// header token that is no whitespace, or at the length of `msg` where there
/// is none, as in every line of fewer than three tokens.
pub open spec fn message_start(msg: Seq<char>) -> int {
    content_start(msg, header_end(msg))
}

/// The record for the line `msg` that came from the address `src` and is read
/// at the time `now`: none for a line with fewer than three tokens between
/// whitespace; else the first token as level and, as message, all of the line
/// from its third token on.
pub open spec fn syslog_record(msg: Seq<char>, src: Seq<char>, now: Seq<char>) -> Option<
    LogEntryView,
> {
    if message_start(msg) < msg.len() {
        Some(
            LogEntryView {
                source: "syslog:"@ + src,
                level: msg.subrange(level_start(msg), level_end(msg)),
                message: msg.subrange(message_start(msg), msg.len() as int),
                timestamp: now,
            },
        )
    } else {
        None
    }
}

/// The text of a datagram.
pub fn datagram_message(datagram: &[u8]) -> (r: &str)
    ensures
        r@ == datagram_text(datagram@),
{
    match utf8_text(datagram) {
        Some(text) => text,
        None => "<invalid UTF-8>",
    }
}

/// Reads a line that came from the address `src` as a record, at the time
/// `now`.
pub fn parse_syslog_at(msg: &str, src: &str, now: &str) -> (r: Option<LogEntry>)
    ensures
        view_of(r) == syslog_record(msg@, src@, now@),
{
    let chars = chars_of(msg);
    let level_from = skip_whitespace(&chars, 0);
    let level_to = skip_token(&chars, level_from);
    let header_from = skip_whitespace(&chars, level_to);
    let header_to = skip_token(&chars, header_from);
    let message_from = skip_whitespace(&chars, header_to);
    if message_from >= chars.len() {
        return None;
    }
    let mut source = String::from_str("syslog:");
    source.append(src);
    Some(
        LogEntry {
            source,
            level: msg.substring_char(level_from, level_to).to_owned(),
            message: msg.substring_char(message_from, chars.len()).to_owned(),
            timestamp: now.to_owned(),
        },
    )
}

/// Reads a line that came from the address `src` as a record, stamped with
/// the time of this call. Whatever the clock says, the record is that of
/// [`parse_syslog_at`] at some time that the clock wrote.
pub fn parse_syslog(msg: &str, src: &str) -> (r: Option<LogEntry>)
    ensures
        exists|now: Seq<char>|
            is_utc_stamp(now) && view_of(r) == #[trigger] syslog_record(msg@, src@, now),
{
    let now = default_timestamp();
    parse_syslog_at(msg, src, now.as_str())
}

/// Reads a datagram that came from the address `src` as a record, stamped
/// with the time of this call.
pub fn datagram_record(datagram: &[u8], src: &str) -> (r: Option<LogEntry>)
    ensures
        exists|now: Seq<char>|
            is_utc_stamp(now) && view_of(r)
                == #[trigger] syslog_record(datagram_text(datagram@), src@, now),
{
    parse_syslog(datagram_message(datagram), src)
}

} // verus!

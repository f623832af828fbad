//! The wire shape of a record: a JSON object with the members `source`,
//! `level`, `message` and `timestamp`, each a string. Only `message` has to be
//! there. A body carries one such object, or an array of them.

use vstd::prelude::*;
use vstd::utf8::encode_utf8;
use crate::json::{
    json_document, json_model, json_models, json_quoted, parse_value, quote_text, value_items,
    value_member, value_text, Json,
};
use crate::models::{
    batch_view, default_timestamp, is_utc_stamp, view_of, views, LogEntry, LogEntryView,
};

verus! {

/// Why a body was not taken.
#[derive(Debug, Clone, Copy, PartialEq, Eq)]
pub enum DecodeError {
    /// The bytes are no JSON document.
    Syntax,
    /// The document is neither a record nor an array of records.
    Shape,
}

/// What a document holds under a name.
pub enum Member {
    /// No member of that name, as in every document that is no object.
    Absent,
    /// A string.
    Text(Seq<char>),
    /// A member that is no string.
    Other,
}

/// What `doc` holds under `key`.
pub open spec fn member(doc: Json, key: Seq<char>) -> Member {
    match doc {
        Json::Object(members) => if members.contains_key(key) {
            match members[key] {
                Json::Text(text) => Member::Text(text),
                _ => Member::Other,
            }
        } else {
            Member::Absent
        },
        _ => Member::Absent,
    }
}

/// The text of a member that is a string, and `fallback` for any other.
pub open spec fn text_or(member: Member, fallback: Seq<char>) -> Seq<char> {
    match member {
        Member::Text(text) => text,
        _ => fallback,
    }
}

/// Whether `doc` is record-shaped: it holds a string under `message`, and
/// nothing but strings under `source`, `level` and `timestamp`.
pub open spec fn is_record(doc: Json) -> bool {
    &&& member(doc, "message"@) is Text
    &&& !(member(doc, "source"@) is Other)
    &&& !(member(doc, "level"@) is Other)
    &&& !(member(doc, "timestamp"@) is Other)
}

/// The record that `doc` stands for when it is read at the time `now`, or
/// `None` where `doc` is not record-shaped. An absent source is empty, an
/// absent level is `INFO`, and an absent timestamp is `now`.
pub open spec fn record_of(doc: Json, now: Seq<char>) -> Option<LogEntryView> {
    if is_record(doc) {
        Some(
            LogEntryView {
                source: text_or(member(doc, "source"@), Seq::empty()),
                level: text_or(member(doc, "level"@), "INFO"@),
                message: text_or(member(doc, "message"@), Seq::empty()),
                timestamp: text_or(member(doc, "timestamp"@), now),
            },
        )
    } else {
        None
    }
}

/// The records of an array whose items are all record-shaped, in order, or
/// `None` where one item is not.
pub open spec fn records_of(items: Seq<Json>, now: Seq<char>) -> Option<Seq<LogEntryView>> {
    if forall|i: int| 0 <= i < items.len() ==> (#[trigger] record_of(items[i], now)) is Some {
        Some(Seq::new(items.len(), |i: int| record_of(items[i], now).unwrap()))
    } else {
        None
    }
}

/// The batch that a document carries: the records of an array, or the one
/// record that the document itself is.
pub open spec fn batch_of(doc: Json, now: Seq<char>) -> Option<Seq<LogEntryView>> {
    match doc {
        Json::Array(items) => records_of(items, now),
        _ => match record_of(doc, now) {
            Some(record) => Some(seq![record]),
            None => None,
        },
    }
}

/// The outcome of reading one record from `bytes` at the time `now`.
pub open spec fn decoded_record(bytes: Seq<u8>, now: Seq<char>) -> Result<
    LogEntryView,
    DecodeError,
> {
    match json_document(bytes) {
        None => Err(DecodeError::Syntax),
        Some(doc) => match record_of(doc, now) {
            Some(record) => Ok(record),
            None => Err(DecodeError::Shape),
        },
    }
}

/// The outcome of reading a batch from `bytes` at the time `now`.
pub open spec fn decoded_batch(bytes: Seq<u8>, now: Seq<char>) -> Result<
    Seq<LogEntryView>,
    DecodeError,
> {
    match json_document(bytes) {
        None => Err(DecodeError::Syntax),
        Some(doc) => match batch_of(doc, now) {
            Some(records) => Ok(records),
            None => Err(DecodeError::Shape),
        },
    }
}

/// The JSON object that is written for a record: its four members in the
/// order source, level, message, timestamp, with no space between them.
pub open spec fn record_text(record: LogEntryView) -> Seq<char> {
    "{\"source\":"@ + json_quoted(record.source) + ",\"level\":"@ + json_quoted(record.level)
        + ",\"message\":"@ + json_quoted(record.message) + ",\"timestamp\":"@ + json_quoted(
        record.timestamp,
    ) + "}"@
}

/// The objects of `records`, in order, with a comma between neighbours.
pub open spec fn joined_text(records: Seq<LogEntryView>) -> Seq<char>
    decreases records.len(),
{
    if records.len() == 0 {
        Seq::empty()
    } else if records.len() == 1 {
        record_text(records.last())
    } else {
        joined_text(records.drop_last()) + ","@ + record_text(records.last())
    }
}

/// The JSON array that is written for a batch.
pub open spec fn batch_text(records: Seq<LogEntryView>) -> Seq<char> {
    "["@ + joined_text(records) + "]"@
}

/// The bytes that are written for a batch: its JSON array in UTF-8.
pub open spec fn encoded_batch(records: Seq<LogEntryView>) -> Seq<u8> {
    encode_utf8(batch_text(records))
}

/// The view of the outcome of reading one record.
pub open spec fn record_outcome(r: Result<LogEntry, DecodeError>) -> Result<
    LogEntryView,
    DecodeError,
> {
    match r {
        Ok(record) => Ok(record@),
        Err(e) => Err(e),
    }
}

/// The view of the outcome of reading a batch.
pub open spec fn batch_outcome(r: Result<Vec<LogEntry>, DecodeError>) -> Result<
    Seq<LogEntryView>,
    DecodeError,
> {
    match r {
        Ok(records) => Ok(views(records@)),
        Err(e) => Err(e),
    }
}

/// What was found under a name.
enum Found {
    Absent,
    Text(String),
    Other,
}

impl View for Found {
    type V = Member;

    closed spec fn view(&self) -> Member {
        match self {
            Found::Absent => Member::Absent,
            Found::Text(text) => Member::Text(text@),
            Found::Other => Member::Other,
        }
    }
}

/// Looks up the member `key` of `v`.
fn find_member(v: &serde_json::Value, key: &str) -> (r: Found)
    ensures
        r@ == member(json_model(*v), key@),
{
    match value_member(v, key) {
        Some(found) => match value_text(found) {
            Some(text) => Found::Text(text.to_owned()),
            None => Found::Other,
        },
        None => Found::Absent,
    }
}

impl Found {
    /// Whether a string was found.
    fn is_text(&self) -> (r: bool)
        ensures
            r == (self@ is Text),
    {
        match self {
            Found::Text(_) => true,
            _ => false,
        }
    }

    /// Whether a member that is no string was found.
    fn is_other(&self) -> (r: bool)
        ensures
            r == (self@ is Other),
    {
        match self {
            Found::Other => true,
            _ => false,
        }
    }

    /// The text that was found, or `fallback` where none was.
    fn text_or(self, fallback: &str) -> (r: String)
        ensures
            r@ == text_or(self@, fallback@),
    {
        match self {
            Found::Text(text) => text,
            _ => fallback.to_owned(),
        }
    }
}

/// Reads `v` as one record, at the time `now`.
pub fn record_from_value(v: &serde_json::Value, now: &str) -> (r: Option<LogEntry>)
    ensures
        view_of(r) == record_of(json_model(*v), now@),
{
    let source = find_member(v, "source");
    let level = find_member(v, "level");
    let message = find_member(v, "message");
    let timestamp = find_member(v, "timestamp");
    if message.is_text() && !source.is_other() && !level.is_other() && !timestamp.is_other() {
        proof {
            reveal_strlit("");
            assert(""@ =~= Seq::<char>::empty());
        }
        Some(
            LogEntry {
                source: source.text_or(""),
                level: level.text_or("INFO"),
                message: message.text_or(""),
                timestamp: timestamp.text_or(now),
            },
        )
    } else {
        None
    }
}

/// Reads every item of an array as a record, at the time `now`.
pub fn records_from_values(items: &Vec<serde_json::Value>, now: &str) -> (r: Option<Vec<LogEntry>>)
    ensures
        batch_view(r) == records_of(json_models(items@), now@),
{
    let ghost docs = json_models(items@);
    let mut out: Vec<LogEntry> = Vec::new();
    let mut i: usize = 0;
    while i < items.len()
        invariant
            i <= items.len(),
            docs == json_models(items@),
            out@.len() == i,
            forall|k: int| 0 <= k < i ==> record_of(docs[k], now@) == Some(#[trigger] out@[k]@),
        decreases items.len() - i,
    {
        match record_from_value(&items[i], now) {
            Some(record) => {
                out.push(record);
            },
            None => {
                assert(record_of(docs[i as int], now@) is None);
                return None;
            },
        }
        i += 1;
    }
    proof {
        assert forall|k: int| 0 <= k < docs.len() implies (#[trigger] record_of(docs[k], now@))
            is Some by {
            assert(record_of(docs[k], now@) == Some(out@[k]@));
        }
        assert(records_of(docs, now@).unwrap() =~= views(out@));
    }
    Some(out)
}

/// Reads a parsed document as a batch: an array of records, or one record.
pub fn batch_from_value(v: &serde_json::Value, now: &str) -> (r: Option<Vec<LogEntry>>)
    ensures
        batch_view(r) == batch_of(json_model(*v), now@),
{
    match value_items(v) {
        Some(items) => records_from_values(items, now),
        None => match record_from_value(v, now) {
            Some(record) => {
                let records = vec![record];
                proof {
                    assert(views(records@) =~= seq![record@]);
                }
                Some(records)
            },
            None => None,
        },
    }
}

/// Reads one record from the bytes of a JSON document, at the time `now`.
/// Fails with `Syntax` exactly where the bytes are no JSON, and with `Shape`
/// exactly where the document is not record-shaped.
pub fn parse_record(data: &[u8], now: &str) -> (r: Result<LogEntry, DecodeError>)
    ensures
        record_outcome(r) == decoded_record(data@, now@),
{
    match parse_value(data) {
        None => Err(DecodeError::Syntax),
        Some(v) => match record_from_value(&v, now) {
            Some(record) => Ok(record),
            None => Err(DecodeError::Shape),
        },
    }
}

/// Reads a batch from the bytes of a JSON document, at the time `now`: the
/// records of an array, in order, or the single record that the document is.
/// Fails with `Syntax` exactly where the bytes are no JSON, and with `Shape`
/// exactly where the document has neither shape.
pub fn parse_batch(data: &[u8], now: &str) -> (r: Result<Vec<LogEntry>, DecodeError>)
    ensures
        batch_outcome(r) == decoded_batch(data@, now@),
{
    match parse_value(data) {
        None => Err(DecodeError::Syntax),
        Some(v) => match batch_from_value(&v, now) {
            Some(records) => Ok(records),
            None => Err(DecodeError::Shape),
        },
    }
}

/// Reads one record from the bytes of a JSON document, and fills a missing
/// timestamp with the time of this call. Whatever the clock says, the outcome
/// is that of [`parse_record`] at some time that the clock wrote.
pub fn receive_record(data: &[u8]) -> (r: Result<LogEntry, DecodeError>)
    ensures
        exists|now: Seq<char>|
            is_utc_stamp(now) && record_outcome(r) == #[trigger] decoded_record(data@, now),
{
    let now = default_timestamp();
    parse_record(data, now.as_str())
}

/// Reads a batch from the bytes of a JSON document, and fills each missing
/// timestamp with the time of this call. Whatever the clock says, the outcome
/// is that of [`parse_batch`] at some time that the clock wrote.
pub fn receive_batch(data: &[u8]) -> (r: Result<Vec<LogEntry>, DecodeError>)
    ensures
        exists|now: Seq<char>|
            is_utc_stamp(now) && batch_outcome(r) == #[trigger] decoded_batch(data@, now),
{
    let now = default_timestamp();
    parse_batch(data, now.as_str())
}

/// Reads one record from a text that holds a JSON document, at the time
/// `now`.
pub fn parse_text_record(text: &str, now: &str) -> (r: Result<LogEntry, DecodeError>)
    ensures
        record_outcome(r) == decoded_record(encode_utf8(text@), now@),
{
    parse_record(text.as_bytes(), now)
}

/// Writes one record as a JSON object.
pub fn encode_record(record: &LogEntry) -> (r: String)
    ensures
        r@ == record_text(record@),
{
    let mut out = String::from_str("{\"source\":");
    out.append(quote_text(record.source.as_str()).as_str());
    out.append(",\"level\":");
    out.append(quote_text(record.level.as_str()).as_str());
    out.append(",\"message\":");
    out.append(quote_text(record.message.as_str()).as_str());
    out.append(",\"timestamp\":");
    out.append(quote_text(record.timestamp.as_str()).as_str());
    out.append("}");
    out
}

/// Writes a batch as the bytes of a JSON array of record objects, in the
/// order of the batch.
pub fn encode_batch(records: &Vec<LogEntry>) -> (r: Vec<u8>)
    ensures
        r@ == encoded_batch(views(records@)),
{
    let ghost all = views(records@);
    let mut inner = String::new();
    let mut i: usize = 0;
    while i < records.len()
        invariant
            i <= records.len(),
            all == views(records@),
            joined_text(all.take(i as int)) == inner@,
        decreases records.len() - i,
    {
        proof {
            assert(all.take(i + 1).drop_last() =~= all.take(i as int));
            assert(all.take(i + 1).last() == records@[i as int]@);
        }
        let text = encode_record(&records[i]);
        if i > 0 {
            inner.append(",");
        }
        inner.append(text.as_str());
        i += 1;
    }
    proof {
        assert(all.take(records.len() as int) =~= all);
    }
    let mut out = String::from_str("[");
    out.append(inner.as_str());
    out.append("]");
    out.as_str().as_bytes_vec()
}

/// Defaults are filled where the record is read: a record-shaped document
/// without timestamp gets the time at which it is read, one without level
/// gets `INFO`, one without source gets the empty source, and a member that is
/// there is kept as it is.
pub proof fn lemma_absent_members_get_defaults(doc: Json, now: Seq<char>)
    requires
        record_of(doc, now) is Some,
    ensures
        record_of(doc, now).unwrap().timestamp == match member(doc, "timestamp"@) {
            Member::Text(text) => text,
            _ => now,
        },
        record_of(doc, now).unwrap().level == match member(doc, "level"@) {
            Member::Text(text) => text,
            _ => "INFO"@,
        },
        record_of(doc, now).unwrap().source == match member(doc, "source"@) {
            Member::Text(text) => text,
            _ => Seq::<char>::empty(),
        },
        member(doc, "message"@) == Member::Text(record_of(doc, now).unwrap().message),
        is_utc_stamp(now) && !(member(doc, "timestamp"@) is Text) ==> is_utc_stamp(
            record_of(doc, now).unwrap().timestamp,
        ),
{
}

/// Whether a document is record-shaped does not depend on when it is read,
/// and neither does any field but a timestamp that had to be filled.
pub proof fn lemma_shape_is_timeless(doc: Json, now: Seq<char>, later: Seq<char>)
    ensures
        record_of(doc, now) is Some <==> record_of(doc, later) is Some,
        record_of(doc, now) is Some ==> {
            &&& record_of(doc, now).unwrap().source == record_of(doc, later).unwrap().source
            &&& record_of(doc, now).unwrap().level == record_of(doc, later).unwrap().level
            &&& record_of(doc, now).unwrap().message == record_of(doc, later).unwrap().message
            &&& member(doc, "timestamp"@) is Text ==> record_of(doc, now).unwrap().timestamp
                == record_of(doc, later).unwrap().timestamp
        },
{
}

/// Both batch shapes carry the same: a document that is no array gives, by
/// itself, the batch that the array of this one document gives.
pub proof fn lemma_single_is_array_of_one(doc: Json, now: Seq<char>)
    requires
        !(doc is Array),
    ensures
        batch_of(Json::Array(seq![doc]), now) == batch_of(doc, now),
{
    let items = seq![doc];
    assert(items[0] == doc);
    if record_of(doc, now) is Some {
        assert forall|i: int| 0 <= i < items.len() implies (#[trigger] record_of(items[i], now))
            is Some by {
            assert(items[i] == doc);
        }
        assert(records_of(items, now).unwrap() =~= seq![record_of(doc, now).unwrap()]);
    } else {
        assert(record_of(items[0], now) is None);
    }
}

/// Both body shapes carry the same: where one body holds a document that is
/// no array and another body holds the array of that one document, reading
/// either gives the same outcome.
pub proof fn lemma_same_batch_from_both_shapes(
    single: Seq<u8>,
    array: Seq<u8>,
    doc: Json,
    now: Seq<char>,
)
    requires
        !(doc is Array),
        json_document(single) == Some(doc),
        json_document(array) == Some(Json::Array(seq![doc])),
    ensures
        decoded_batch(array, now) == decoded_batch(single, now),
{
    lemma_single_is_array_of_one(doc, now);
}

} // verus!

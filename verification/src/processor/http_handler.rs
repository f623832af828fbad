//! The processor's ingress: what it makes of the body of a POST.

use vstd::prelude::*;
use vstd::slice::slice_to_vec;
use crate::codec::{header_view, plain_body, Codec};
use crate::json::{json_document, Json};
use crate::models::{default_timestamp, is_utc_stamp, views, LogEntry, LogEntryView};
use crate::processor::forwarder::{
    is_success, relay_outcome, send_logs, RelayPlan, RelayRequest, RelayResponse,
};
use crate::processor::processor::{normalized_batch, process_logs};
use crate::wire::{
    decoded_batch, encoded_batch, lemma_same_batch_from_both_shapes, parse_batch, DecodeError,
};

verus! {

/// Why a body was rejected.
#[derive(Debug, Clone, Copy, PartialEq, Eq)]
pub enum IngestError {
    /// The header names a codec, and that codec rejects the body.
    Decompression,
    /// The plain body is no JSON document.
    Syntax,
    /// The document is neither a record nor an array of records.
    Shape,
}

/// The batch that a body carries when it is read at the time `now`, raw or in
/// normal form.
pub open spec fn ingested(
    encoding: Option<Seq<char>>,
    body: Seq<u8>,
    normalize: bool,
    now: Seq<char>,
) -> Result<Seq<LogEntryView>, IngestError> {
    match plain_body(encoding, body) {
        None => Err(IngestError::Decompression),
        Some(plain) => match decoded_batch(plain, now) {
            Err(DecodeError::Syntax) => Err(IngestError::Syntax),
            Err(DecodeError::Shape) => Err(IngestError::Shape),
            Ok(records) => Ok(
                if normalize {
                    normalized_batch(records)
                } else {
                    records
                },
            ),
        },
    }
}

/// The view of an outcome of [`read_batch`].
pub open spec fn ingest_outcome(r: Result<Vec<LogEntry>, IngestError>) -> Result<
    Seq<LogEntryView>,
    IngestError,
> {
    match r {
        Ok(records) => Ok(views(records@)),
        Err(e) => Err(e),
    }
}

/// Undoes the compression that the header `encoding` announces.
pub fn decode_body(encoding: Option<&str>, body: &[u8]) -> (r: Option<Vec<u8>>)
    ensures
        match r {
            Some(plain) => plain_body(
                header_view(encoding),
                body@,
            ) == Some(plain@),
            None => plain_body(
                header_view(encoding),
                body@,
            ) is None,
        },
{
    match encoding {
        Some(name) => match Codec::from_name(name) {
            Some(codec) => codec.decompress(body),
            None => Some(slice_to_vec(body)),
        },
        None => Some(slice_to_vec(body)),
    }
}

/// Reads the body of a POST as a batch, at the time `now`: undoes the
/// compression that the header announces, parses the plain bytes as JSON, and
/// takes an array of records or one record. With `normalize`, each record is
/// brought into normal form. A body that fails at any of these steps is
/// rejected as a whole.
pub fn read_batch(encoding: Option<&str>, body: &[u8], normalize: bool, now: &str) -> (r: Result<
    Vec<LogEntry>,
    IngestError,
>)
    ensures
        ingest_outcome(r) == ingested(
            header_view(encoding),
            body@,
            normalize,
            now@,
        ),
{
    let plain = match decode_body(encoding, body) {
        Some(plain) => plain,
        None => {
            return Err(IngestError::Decompression);
        },
    };
    match parse_batch(plain.as_slice(), now) {
        Ok(records) => Ok(
            if normalize {
                process_logs(records)
            } else {
                records
            },
        ),
        Err(DecodeError::Syntax) => Err(IngestError::Syntax),
        Err(DecodeError::Shape) => Err(IngestError::Shape),
    }
}

/// What the handler does next.
#[derive(Debug, Clone, PartialEq, Eq)]
pub enum Reply {
    /// It answers the request with this status code.
    Respond(u16),
    /// It posts this request to storage, and answers with
    /// [`relay_status`] of what comes back.
    Relay(RelayRequest),
}

/// Whether `reply` is what the handler owes to the outcome of reading a
/// body: 400 for a rejected body, 200 for an empty batch, and else the relay
/// of the batch as a JSON array.
pub open spec fn owed(reply: Reply, outcome: Result<Seq<LogEntryView>, IngestError>) -> bool {
    match outcome {
        Err(_) => reply == Reply::Respond(400),
        Ok(records) => if records.len() == 0 {
            reply == Reply::Respond(200)
        } else {
            match reply {
                Reply::Relay(request) => request.content_type@ == "application/json"@
                    && request.body@ == encoded_batch(records),
                _ => false,
            }
        },
    }
}

/// Whether `reply` is what the handler owes to a body that it reads at the
/// time `now`.
pub open spec fn replies(
    reply: Reply,
    encoding: Option<Seq<char>>,
    body: Seq<u8>,
    normalize: bool,
    now: Seq<char>,
) -> bool {
    owed(reply, ingested(encoding, body, normalize, now))
}

/// Reads the body of a POST as a batch, with the time of this call for the
/// timestamps that the body leaves out. Whatever the clock says, the outcome
/// is that of [`read_batch`] at some time that the clock wrote.
pub fn receive_batch(encoding: Option<&str>, body: &[u8], normalize: bool) -> (r: Result<
    Vec<LogEntry>,
    IngestError,
>)
    ensures
        exists|now: Seq<char>|
            is_utc_stamp(now) && ingest_outcome(r) == #[trigger] ingested(
                header_view(encoding),
                body@,
                normalize,
                now,
            ),
{
    let now = default_timestamp();
    read_batch(encoding, body, normalize, now.as_str())
}

/// The handler's decision on the outcome of reading a body.
pub fn reply_to(batch: Result<Vec<LogEntry>, IngestError>) -> (r: Reply)
    ensures
        owed(r, ingest_outcome(batch)),
{
    match batch {
        Err(_) => Reply::Respond(400),
        Ok(records) => match send_logs(&records) {
            RelayPlan::Nothing => Reply::Respond(200),
            RelayPlan::Post(request) => Reply::Relay(request),
        },
    }
}

/// The handler's decision on a body that it reads at the time `now`.
pub fn ingest_logs_at(encoding: Option<&str>, body: &[u8], normalize: bool, now: &str) -> (r:
    Reply)
    ensures
        replies(r, header_view(encoding), body@, normalize, now@),
{
    reply_to(read_batch(encoding, body, normalize, now))
}

/// The handler's decision on a body, with the time of this call for the
/// timestamps that the body leaves out. Whatever the clock says, the decision
/// is that of [`ingest_logs_at`] at some time that the clock wrote.
pub fn ingest_logs(encoding: Option<&str>, body: &[u8], normalize: bool) -> (r: Reply)
    ensures
        exists|now: Seq<char>|
            is_utc_stamp(now) && #[trigger] replies(
                r,
                header_view(encoding),
                body@,
                normalize,
                now,
            ),
{
    let now = default_timestamp();
    ingest_logs_at(encoding, body, normalize, now.as_str())
}

/// The status code that answers a request whose batch was posted to storage,
/// given what came of the POST: 200 where storage answered with a status from
/// 200 to 299, and 500 otherwise.
pub fn relay_status(response: RelayResponse) -> (r: u16)
    ensures
        r == match response {
            RelayResponse::Answered { status, body } => if is_success(status) {
                200u16
            } else {
                500u16
            },
            RelayResponse::Failed { reason } => 500u16,
        },
{
    match relay_outcome(response) {
        Ok(_) => 200,
        Err(_) => 500,
    }
}

/// Both body shapes are taken alike: where the plain bytes of one body hold
/// a document that is no array, and those of another body hold the array of
/// that one document, the processor makes the same batch of both, and so owes
/// both the same reply, with the same payload for storage.
pub proof fn lemma_same_reply_for_both_shapes(
    reply: Reply,
    single_encoding: Option<Seq<char>>,
    single: Seq<u8>,
    array_encoding: Option<Seq<char>>,
    array: Seq<u8>,
    doc: Json,
    normalize: bool,
    now: Seq<char>,
)
    requires
        !(doc is Array),
        plain_body(single_encoding, single) is Some,
        plain_body(array_encoding, array) is Some,
        json_document(plain_body(single_encoding, single).unwrap()) == Some(doc),
        json_document(plain_body(array_encoding, array).unwrap()) == Some(Json::Array(seq![doc])),
    ensures
        ingested(array_encoding, array, normalize, now) == ingested(
            single_encoding,
            single,
            normalize,
            now,
        ),
        replies(reply, array_encoding, array, normalize, now) == replies(
            reply,
            single_encoding,
            single,
            normalize,
            now,
        ),
{
    lemma_same_batch_from_both_shapes(
        plain_body(single_encoding, single).unwrap(),
        plain_body(array_encoding, array).unwrap(),
        doc,
        now,
    );
}

} // verus!

//! The storage relay: what the processor posts to storage, and what it makes
//! of the answer.

use vstd::prelude::*;
use crate::models::{views, LogEntry};
use crate::wire::{encode_batch, encoded_batch};

verus! {

/// A POST to the storage service.
#[derive(Debug, Clone, PartialEq, Eq)]
pub struct RelayRequest {
    /// The value of the `Content-Type` header.
    pub content_type: String,
    /// The body: the batch as an uncompressed JSON array.
    pub body: Vec<u8>,
}

/// What is to be done with a batch.
#[derive(Debug, Clone, PartialEq, Eq)]
pub enum RelayPlan {
    /// The batch is empty: nothing is sent, and the relay has succeeded.
    Nothing,
    /// This request is to be sent.
    Post(RelayRequest),
}

/// What came of the POST.
#[derive(Debug, Clone, PartialEq, Eq)]
pub enum RelayResponse {
    /// The storage service answered with this status code and this body.
    Answered { status: u16, body: String },
    /// The request failed before any answer came; the text says how.
    Failed { reason: String },
}

/// Why a relay failed.
#[derive(Debug, Clone, PartialEq, Eq)]
pub enum RelayError {
    /// The storage service answered with a status outside 200..=299.
    Rejected { status: u16, detail: String },
    /// The request failed before any answer came.
    Transport { reason: String },
}

/// Whether a status code reports success: 200 to 299.
pub open spec fn is_success(status: u16) -> bool {
    200 <= status <= 299
}

/// Plans the relay of a batch: nothing for an empty batch, else one POST with
/// the content type `application/json` and the batch as a JSON array.
pub fn send_logs(logs: &Vec<LogEntry>) -> (r: RelayPlan)
    ensures
        match r {
            RelayPlan::Nothing => logs@.len() == 0,
            RelayPlan::Post(request) => logs@.len() > 0 && request.content_type@
                == "application/json"@ && request.body@ == encoded_batch(views(logs@)),
        },
{
    if logs.len() == 0 {
        return RelayPlan::Nothing;
    }
    RelayPlan::Post(
        RelayRequest { content_type: "application/json".to_owned(), body: encode_batch(logs) },
    )
}

/// What the relay has come to, given the answer to its POST: success for a
/// status from 200 to 299, and the matching error otherwise.
pub fn relay_outcome(response: RelayResponse) -> (r: Result<(), RelayError>)
    ensures
        match response {
            RelayResponse::Answered { status, body } => if is_success(status) {
                r is Ok
            } else {
                r == Err::<(), RelayError>(RelayError::Rejected { status, detail: body })
            },
            RelayResponse::Failed { reason } => r == Err::<(), RelayError>(
                RelayError::Transport { reason },
            ),
        },
{
    match response {
        RelayResponse::Answered { status, body } => {
            if 200 <= status && status <= 299 {
                Ok(())
            } else {
                Err(RelayError::Rejected { status, detail: body })
            }
        },
        RelayResponse::Failed { reason } => Err(RelayError::Transport { reason }),
    }
}

} // verus!

//! The collector's ingress: what it makes of the body of a POST.

use vstd::prelude::*;
use crate::models::{default_timestamp, is_utc_stamp, views, LogEntry, LogEntryView};
use crate::queue::IngestionQueue;
use crate::wire::{decoded_batch, parse_batch};

verus! {

/// What a POST comes to when its body is read at the time `now` and the
/// queue holds `held` records of at most `limit`: the status code of the
/// answer, and the records that join the queue. A body that is no batch is
/// answered with 400, a batch that the queue has no room for with 503, and
/// in both cases nothing joins the queue; any other batch joins it, in its
/// order, and is answered with 200.
pub open spec fn intake(body: Seq<u8>, now: Seq<char>, held: nat, limit: nat) -> (
    u16,
    Seq<LogEntryView>,
) {
    match decoded_batch(body, now) {
        Err(_) => (400, Seq::empty()),
        Ok(records) => if held + records.len() <= limit {
            (200, records)
        } else {
            (503, Seq::empty())
        },
    }
}

/// Takes the body of a POST into the queue, at the time `now`, and returns
/// the status code of the answer.
pub fn ingest_log_at(queue: &mut IngestionQueue<LogEntry>, body: &[u8], now: &str) -> (r: u16)
    ensures
        final(queue).limit() == old(queue).limit(),
        r == intake(body@, now@, old(queue)@.len(), old(queue).limit()).0,
        views(final(queue)@) == views(old(queue)@) + intake(
            body@,
            now@,
            old(queue)@.len(),
            old(queue).limit(),
        ).1,
        r != 200 ==> final(queue)@ == old(queue)@,
{
    let ghost before = queue@;
    match parse_batch(body, now) {
        Err(_) => {
            proof {
                assert(views(before) + Seq::<LogEntryView>::empty() =~= views(before));
            }
            400
        },
        Ok(records) => {
            let ghost added = records@;
            match queue.enqueue_all(records) {
                Ok(_) => {
                    proof {
                        assert(views(before + added) =~= views(before) + views(added));
                    }
                    200
                },
                Err(_) => {
                    proof {
                        assert(views(before) + Seq::<LogEntryView>::empty() =~= views(before));
                    }
                    503
                },
            }
        },
    }
}

/// Takes the body of a POST into the queue, with the time of this call for
/// the records that carry no timestamp, and returns the status code of the
/// answer. Whatever the clock says, the outcome is that of
/// [`ingest_log_at`] at some time that the clock wrote.
pub fn ingest_log(queue: &mut IngestionQueue<LogEntry>, body: &[u8]) -> (r: u16)
    ensures
        final(queue).limit() == old(queue).limit(),
        r != 200 ==> final(queue)@ == old(queue)@,
        exists|now: Seq<char>|
            is_utc_stamp(now) && (r, views(final(queue)@)) == (
                (#[trigger] intake(body@, now, old(queue)@.len(), old(queue).limit())).0,
                views(old(queue)@) + intake(body@, now, old(queue)@.len(), old(queue).limit()).1,
            ),
{
    let now = default_timestamp();
    ingest_log_at(queue, body, now.as_str())
}

} // verus!

//! The batching forwarder: it gathers the records that it takes off the
//! queue, flushes the batch when it is full or when it has been open for the
//! flush period, and makes the one POST that carries a flushed batch.

use vstd::prelude::*;
use crate::codec::{
    codec_name, compressed, lemma_codec_named_by_its_name, plain_body, within_receiver_limits,
    Codec,
};
use crate::models::{batch_view, views, LogEntry, LogEntryView};
use crate::wire::{encode_batch, encoded_batch};

verus! {

/// The batch size at which a flush is due where none is configured.
pub const DEFAULT_BATCH_SIZE: usize = 100;

/// The flush period where none is configured, in milliseconds.
pub const DEFAULT_FLUSH_PERIOD_MS: u64 = 5000;

/// The POST that carries one batch to the processor.
#[derive(Debug, Clone, PartialEq, Eq)]
pub struct ForwardRequest {
    /// The value of the `Content-Encoding` header: the name of the codec.
    pub content_encoding: String,
    /// The body: the batch as a JSON array, compressed.
    pub body: Vec<u8>,
}

/// What is to be done with a flushed batch.
#[derive(Debug, Clone, PartialEq, Eq)]
pub enum FlushPlan {
    /// The batch is empty: nothing is sent.
    Nothing,
    /// This request is to be sent.
    Post(ForwardRequest),
    /// The codec did not compress the batch: it is dropped, and the failure
    /// is reported.
    Failed,
}

/// The body for a batch: its JSON array, compressed with `codec`. `None`
/// where the codec does not compress it.
pub open spec fn packed_batch(records: Seq<LogEntryView>, codec: Codec) -> Option<Seq<u8>> {
    compressed(codec, encoded_batch(records))
}

/// Whether a receiver unpacks the body `body` of a batch: see
/// [`within_receiver_limits`].
pub open spec fn unpacked_by_receiver(records: Seq<LogEntryView>, codec: Codec, body: Seq<u8>)
    -> bool {
    within_receiver_limits(codec, encoded_batch(records).len(), body.len())
}

/// Writes a batch as a JSON array and compresses it with `codec`. The round
/// trip is exact: a receiver that undoes the codec that the header names gets
/// the bytes of the JSON array back, for every body that is within its
/// limits.
pub fn compress_logs(logs: &Vec<LogEntry>, codec: Codec) -> (r: Option<Vec<u8>>)
    ensures
        match r {
            Some(body) => packed_batch(views(logs@), codec) == Some(body@) && (
            unpacked_by_receiver(views(logs@), codec, body@) ==> plain_body(
                Some(codec_name(codec)),
                body@,
            ) == Some(encoded_batch(views(logs@)))),
            None => packed_batch(views(logs@), codec) is None,
        },
{
    proof {
        lemma_codec_named_by_its_name(codec);
    }
    let plain = encode_batch(logs);
    codec.compress(plain.as_slice())
}

/// Plans the sending of a flushed batch: nothing for an empty batch, else one
/// POST whose header names the codec and whose body is the compressed batch.
/// A batch is given up only where the codec does not compress it.
pub fn send_logs(logs: &Vec<LogEntry>, codec: Codec) -> (r: FlushPlan)
    ensures
        match r {
            FlushPlan::Nothing => logs@.len() == 0,
            FlushPlan::Post(request) => logs@.len() > 0 && request.content_encoding@ == codec_name(
                codec,
            ) && packed_batch(views(logs@), codec) == Some(request.body@) && (
            unpacked_by_receiver(views(logs@), codec, request.body@) ==> plain_body(
                Some(request.content_encoding@),
                request.body@,
            ) == Some(encoded_batch(views(logs@)))),
            FlushPlan::Failed => logs@.len() > 0 && packed_batch(views(logs@), codec) is None,
        },
{
    if logs.len() == 0 {
        return FlushPlan::Nothing;
    }
    match compress_logs(logs, codec) {
        Some(body) => FlushPlan::Post(
            ForwardRequest { content_encoding: codec.name().to_owned(), body },
        ),
        None => FlushPlan::Failed,
    }
}

/// Whether a POST has delivered its batch, given the status code of the
/// answer, or `None` where no answer came: only a status from 200 to 299
/// counts. A batch that was not delivered is not sent again.
pub fn delivered(status: Option<u16>) -> (r: bool)
    ensures
        r == match status {
            Some(code) => 200 <= code <= 299,
            None => false,
        },
{
    match status {
        Some(code) => 200 <= code && code <= 299,
        None => false,
    }
}

/// The forwarder's state, as contracts see it.
pub struct BatchState {
    /// The batch in progress, in the order in which the records came.
    pub batch: Seq<LogEntryView>,
    /// When the batch in progress is due, in milliseconds of the caller's
    /// clock; `None` while the batch is empty.
    pub deadline: Option<u64>,
}

/// The state with no batch in progress.
pub open spec fn idle() -> BatchState {
    BatchState { batch: Seq::empty(), deadline: None }
}

/// The number of records at which a batch is flushed: the threshold, and 1
/// for a threshold of 0.
pub open spec fn flush_size(threshold: usize) -> nat {
    if threshold == 0 {
        1
    } else {
        threshold as nat
    }
}

/// The deadline of a batch that is opened at `now`: one period later, or the
/// end of the clock where that is sooner.
pub open spec fn deadline_after(now: u64, period: u64) -> u64 {
    if now + period > u64::MAX {
        u64::MAX
    } else {
        (now + period) as u64
    }
}

/// The state after a record came at `now`, and the batch that is flushed on
/// it, if any: the record joins the batch; a batch that has reached the flush
/// size is flushed whole; the first record of a batch sets its deadline.
pub open spec fn after_record(
    state: BatchState,
    threshold: usize,
    period: u64,
    record: LogEntryView,
    now: u64,
) -> (BatchState, Option<Seq<LogEntryView>>) {
    let batch = state.batch.push(record);
    if batch.len() >= flush_size(threshold) {
        (idle(), Some(batch))
    } else {
        (
            BatchState {
                batch,
                deadline: if state.batch.len() == 0 {
                    Some(deadline_after(now, period))
                } else {
                    state.deadline
                },
            },
            None,
        )
    }
}

/// The state after the timer fired at `now`, and the batch that is flushed on
/// it, if any: a batch that is not empty and is due is flushed whole.
pub open spec fn after_timer(state: BatchState, now: u64) -> (BatchState, Option<
    Seq<LogEntryView>,
>) {
    match state.deadline {
        Some(due) if state.batch.len() > 0 && now >= due => (idle(), Some(state.batch)),
        _ => (state, None),
    }
}

/// What wakes the forwarder.
#[derive(Debug, Clone, PartialEq, Eq)]
pub enum Event {
    /// A record came off the queue at the time `at`.
    Record { record: LogEntry, at: u64 },
    /// The flush timer fired at the time `at`.
    Timer { at: u64 },
}

/// The state after an event, and the batch that is flushed on it, if any.
pub open spec fn after_event(state: BatchState, threshold: usize, period: u64, event: Event) -> (
    BatchState,
    Option<Seq<LogEntryView>>,
) {
    match event {
        Event::Record { record, at } => after_record(state, threshold, period, record@, at),
        Event::Timer { at } => after_timer(state, at),
    }
}

/// The batching forwarder: the batch in progress and its deadline.
pub struct Forwarder {
    batch: Vec<LogEntry>,
    deadline: Option<u64>,
    threshold: usize,
    period_ms: u64,
}

impl Forwarder {
    #[verifier::type_invariant]
    spec fn well_formed(self) -> bool {
        &&& self.batch@.len() < flush_size(self.threshold)
        &&& self.batch@.len() > 0 ==> self.deadline is Some
    }

    /// The batch in progress and its deadline.
    pub closed spec fn view(self) -> BatchState {
        BatchState {
            batch: views(self.batch@),
            deadline: if self.batch@.len() == 0 {
                None
            } else {
                self.deadline
            },
        }
    }

    /// The configured batch size.
    pub closed spec fn threshold(self) -> usize {
        self.threshold
    }

    /// The configured flush period, in milliseconds.
    pub closed spec fn period(self) -> u64 {
        self.period_ms
    }

    /// A forwarder with no batch in progress, which flushes a batch of
    /// `threshold` records at once and any other batch `period_ms`
    /// milliseconds after its first record.
    pub fn new(threshold: usize, period_ms: u64) -> (r: Forwarder)
        ensures
            r@ == idle(),
            r.threshold() == threshold,
            r.period() == period_ms,
    {
        let r = Forwarder { batch: Vec::new(), deadline: None, threshold, period_ms };
        proof {
            assert(views(r.batch@) =~= Seq::<LogEntryView>::empty());
        }
        r
    }

    /// How many records the batch in progress holds: fewer than the flush
    /// size, at all times.
    pub fn pending(&self) -> (r: usize)
        ensures
            r == self@.batch.len(),
            r < flush_size(self.threshold()),
    {
        proof {
            use_type_invariant(self);
        }
        self.batch.len()
    }

    /// When the timer has to fire: the deadline of the batch in progress, and
    /// `None` while there is none, when the timer is not armed.
    pub fn deadline(&self) -> (r: Option<u64>)
        ensures
            r == self@.deadline,
            r is Some <==> self@.batch.len() > 0,
    {
        proof {
            use_type_invariant(self);
        }
        if self.batch.len() == 0 {
            None
        } else {
            self.deadline
        }
    }

    /// How long the forwarder may wait for a record at the time `now` before
    /// the timer has to fire: the milliseconds that are left to the deadline,
    /// none for a deadline that has passed, and `None` while the timer is not
    /// armed.
    pub fn time_left(&self, now: u64) -> (r: Option<u64>)
        ensures
            r == match self@.deadline {
                Some(due) => Some(
                    if due > now {
                        (due - now) as u64
                    } else {
                        0u64
                    },
                ),
                None => None,
            },
    {
        match self.deadline() {
            Some(due) => Some(
                if due > now {
                    due - now
                } else {
                    0
                },
            ),
            None => None,
        }
    }

    /// Takes a record that came off the queue at `now`, and returns the batch
    /// to flush, if one is due.
    pub fn on_record(&mut self, record: LogEntry, now: u64) -> (r: Option<Vec<LogEntry>>)
        ensures
            final(self).threshold() == old(self).threshold(),
            final(self).period() == old(self).period(),
            (final(self)@, batch_view(r)) == after_record(
                old(self)@,
                old(self).threshold(),
                old(self).period(),
                record@,
                now,
            ),
    {
        proof {
            use_type_invariant(&*self);
        }
        let ghost before = self.batch@;
        let opened = self.batch.len() == 0;
        let mut batch: Vec<LogEntry> = Vec::new();
        std::mem::swap(&mut self.batch, &mut batch);
        batch.push(record);
        proof {
            assert(views(batch@) =~= views(before).push(record@));
            assert(views(self.batch@) =~= Seq::<LogEntryView>::empty());
        }
        if batch.len() >= self.threshold {
            self.deadline = None;
            Some(batch)
        } else {
            if opened {
                self.deadline = Some(
                    if now > u64::MAX - self.period_ms {
                        u64::MAX
                    } else {
                        now + self.period_ms
                    },
                );
            }
            std::mem::swap(&mut self.batch, &mut batch);
            None
        }
    }

    /// Takes note that the timer fired at `now`, and returns the batch to
    /// flush, if one is due.
    pub fn on_timer(&mut self, now: u64) -> (r: Option<Vec<LogEntry>>)
        ensures
            final(self).threshold() == old(self).threshold(),
            final(self).period() == old(self).period(),
            (final(self)@, batch_view(r)) == after_timer(old(self)@, now),
    {
        proof {
            use_type_invariant(&*self);
        }
        match self.deadline() {
            Some(due) => {
                if now >= due {
                    let mut batch: Vec<LogEntry> = Vec::new();
                    std::mem::swap(&mut self.batch, &mut batch);
                    self.deadline = None;
                    proof {
                        assert(views(self.batch@) =~= Seq::<LogEntryView>::empty());
                    }
                    Some(batch)
                } else {
                    None
                }
            },
            None => None,
        }
    }

    /// Takes one event, and returns the batch to flush, if one is due.
    pub fn step(&mut self, event: Event) -> (r: Option<Vec<LogEntry>>)
        ensures
            final(self).threshold() == old(self).threshold(),
            final(self).period() == old(self).period(),
            (final(self)@, batch_view(r)) == after_event(
                old(self)@,
                old(self).threshold(),
                old(self).period(),
                event,
            ),
    {
        match event {
            Event::Record { record, at } => self.on_record(record, at),
            Event::Timer { at } => self.on_timer(at),
        }
    }
}

/// The state after a run of events, and the batches that were flushed on the
/// way, in the order of the flushes.
pub open spec fn after_events(state: BatchState, threshold: usize, period: u64, events: Seq<Event>)
    -> (BatchState, Seq<Seq<LogEntryView>>)
    decreases events.len(),
{
    if events.len() == 0 {
        (state, Seq::empty())
    } else {
        let (before, flushes) = after_events(state, threshold, period, events.drop_last());
        let (after, flush) = after_event(before, threshold, period, events.last());
        (
            after,
            match flush {
                Some(batch) => flushes.push(batch),
                None => flushes,
            },
        )
    }
}

/// The records that a run of events brings, in the order of the events.
pub open spec fn received(events: Seq<Event>) -> Seq<LogEntryView>
    decreases events.len(),
{
    if events.len() == 0 {
        Seq::empty()
    } else {
        match events.last() {
            Event::Record { record, at } => received(events.drop_last()).push(record@),
            Event::Timer { at } => received(events.drop_last()),
        }
    }
}

/// The records of a run of batches, one batch after the other.
pub open spec fn joined(batches: Seq<Seq<LogEntryView>>) -> Seq<LogEntryView>
    decreases batches.len(),
{
    if batches.len() == 0 {
        Seq::empty()
    } else {
        joined(batches.drop_last()) + batches.last()
    }
}

/// Nothing is lost, doubled or reordered: whatever events come, the flushed
/// batches one after the other, followed by the batch in progress, are the
/// batch that was in progress at the start followed by the records that came,
/// in the order in which they came.
pub proof fn lemma_flushes_keep_every_record(
    state: BatchState,
    threshold: usize,
    period: u64,
    events: Seq<Event>,
)
    ensures
        joined(after_events(state, threshold, period, events).1) + after_events(
            state,
            threshold,
            period,
            events,
        ).0.batch == state.batch + received(events),
    decreases events.len(),
{
    if events.len() == 0 {
        assert(joined(Seq::<Seq<LogEntryView>>::empty()) + state.batch =~= state.batch
            + received(events));
    } else {
        let front = events.drop_last();
        lemma_flushes_keep_every_record(state, threshold, period, front);
        let (before, flushes) = after_events(state, threshold, period, front);
        let (after, flush) = after_event(before, threshold, period, events.last());
        match flush {
            Some(batch) => {
                assert(flushes.push(batch).drop_last() =~= flushes);
                assert(joined(flushes.push(batch)) == joined(flushes) + batch);
                match events.last() {
                    Event::Record { record, at } => {
                        assert(joined(flushes) + batch + after.batch =~= (joined(flushes)
                            + before.batch).push(record@));
                        assert((state.batch + received(front)).push(record@) =~= state.batch
                            + received(events));
                    },
                    Event::Timer { at } => {
                        assert(joined(flushes) + batch + after.batch =~= joined(flushes)
                            + before.batch);
                    },
                }
            },
            None => {
                match events.last() {
                    Event::Record { record, at } => {
                        assert(joined(flushes) + after.batch =~= (joined(flushes)
                            + before.batch).push(record@));
                        assert((state.batch + received(front)).push(record@) =~= state.batch
                            + received(events));
                    },
                    Event::Timer { at } => {},
                }
            },
        }
    }
}

/// Batches stay within the flush size: from a state whose batch is below it,
/// whatever events come, the batch in progress stays below the flush size,
/// and every flushed batch holds at least one record and at most as many as
/// the flush size.
pub proof fn lemma_batches_stay_bounded(
    state: BatchState,
    threshold: usize,
    period: u64,
    events: Seq<Event>,
)
    requires
        state.batch.len() < flush_size(threshold),
    ensures
        after_events(state, threshold, period, events).0.batch.len() < flush_size(threshold),
        forall|i: int|
            0 <= i < after_events(state, threshold, period, events).1.len() ==> 0 < (
            #[trigger] after_events(state, threshold, period, events).1[i]).len() <= flush_size(
                threshold,
            ),
    decreases events.len(),
{
    if events.len() > 0 {
        lemma_batches_stay_bounded(state, threshold, period, events.drop_last());
    }
}

/// The latency bound: from the idle state, whatever events come, a batch in
/// progress has a deadline, so that the timer is armed for as long as a
/// record waits.
pub proof fn lemma_open_batch_has_deadline(threshold: usize, period: u64, events: Seq<Event>)
    ensures
        after_events(idle(), threshold, period, events).0.batch.len() > 0 ==> after_events(
            idle(),
            threshold,
            period,
            events,
        ).0.deadline is Some,
    decreases events.len(),
{
    if events.len() > 0 {
        lemma_open_batch_has_deadline(threshold, period, events.drop_last());
    }
}

/// The deadline is set once: the record that opens a batch sets the deadline
/// one period after its own time, no later event moves the deadline of the
/// open batch, and a flush leaves neither batch nor deadline. So no record
/// waits for longer than one period after the first of its batch, as long
/// as the timer fires when it is due.
pub proof fn lemma_deadline_is_set_once(
    state: BatchState,
    threshold: usize,
    period: u64,
    event: Event,
)
    ensures
        after_event(state, threshold, period, event).1 is Some ==> after_event(
            state,
            threshold,
            period,
            event,
        ).0 == idle(),
        after_event(state, threshold, period, event).1 is None && state.batch.len() > 0
            ==> after_event(state, threshold, period, event).0.deadline == state.deadline,
        after_event(state, threshold, period, event).1 is None && state.batch.len() == 0
            ==> match event {
            Event::Record { record, at } => after_event(state, threshold, period, event).0.deadline
                == Some(deadline_after(at, period)),
            Event::Timer { at } => after_event(state, threshold, period, event).0 == state,
        },
{
}

/// The size trigger: from the idle state, as many records as the flush size,
/// with no timer event between them, give no flush before the last record
/// and, on the last record, one flush of exactly these records in their
/// order, after which no batch is in progress.
pub proof fn lemma_full_batch_is_flushed_at_once(threshold: usize, period: u64, events: Seq<Event>)
    requires
        events.len() == flush_size(threshold),
        forall|i: int| 0 <= i < events.len() ==> (#[trigger] events[i]) is Record,
    ensures
        after_events(idle(), threshold, period, events) == (idle(), seq![received(events)]),
        forall|n: int|
            0 <= n < events.len() ==> (#[trigger] after_events(
                idle(),
                threshold,
                period,
                events.take(n),
            )).1.len() == 0,
{
    assert forall|n: int| 0 <= n < events.len() implies (#[trigger] after_events(
        idle(),
        threshold,
        period,
        events.take(n),
    )).1.len() == 0 by {
        lemma_partial_batch_waits(threshold, period, events.take(n));
    }
    let front = events.drop_last();
    assert(front =~= events.take(events.len() - 1));
    lemma_partial_batch_waits(threshold, period, front);
    let (before, flushes) = after_events(idle(), threshold, period, front);
    assert(flushes =~= Seq::<Seq<LogEntryView>>::empty());
    assert(events.last() == events[events.len() - 1]);
    assert(events.last() is Record);
    assert(before.batch.push(events.last()->Record_record@) =~= received(events));
    assert(flushes.push(received(events)) =~= seq![received(events)]);
}

/// Below the flush size nothing is flushed: from the idle state, fewer
/// records than the flush size, with no timer event between them, give no
/// flush, and the batch in progress is these records in their order.
pub proof fn lemma_partial_batch_waits(threshold: usize, period: u64, events: Seq<Event>)
    requires
        events.len() < flush_size(threshold),
        forall|i: int| 0 <= i < events.len() ==> (#[trigger] events[i]) is Record,
    ensures
        after_events(idle(), threshold, period, events).1.len() == 0,
        after_events(idle(), threshold, period, events).0.batch == received(events),
        received(events).len() == events.len(),
    decreases events.len(),
{
    if events.len() > 0 {
        let front = events.drop_last();
        assert forall|i: int| 0 <= i < front.len() implies (#[trigger] front[i]) is Record by {
            assert(front[i] == events[i]);
        }
        lemma_partial_batch_waits(threshold, period, front);
        assert(events.last() == events[events.len() - 1]);
        assert(events.last() is Record);
    }
}

/// The time trigger: a record that opens a batch at the time `at` and is
/// followed by nothing waits until the timer fires one period later, or
/// later than that, and is then flushed alone. A timer that fires sooner
/// flushes nothing.
pub proof fn lemma_lone_record_is_flushed_on_time(
    threshold: usize,
    period: u64,
    record: LogEntry,
    at: u64,
    fired: u64,
)
    requires
        flush_size(threshold) > 1,
    ensures
        after_record(idle(), threshold, period, record@, at).1 is None,
        fired >= deadline_after(at, period) ==> after_timer(
            after_record(idle(), threshold, period, record@, at).0,
            fired,
        ) == (idle(), Some(seq![record@])),
        fired < deadline_after(at, period) ==> after_timer(
            after_record(idle(), threshold, period, record@, at).0,
            fired,
        ).1 is None,
{
    assert(Seq::<LogEntryView>::empty().push(record@) =~= seq![record@]);
}

} // verus!

//! The ingestion queue: a conduit of fixed capacity that hands its items out
//! in the order in which they came. A producer that finds it full gets its
//! item back, to offer it again once the consumer has taken one out; nothing
//! is lost unless the producer asks for that.

use std::collections::VecDeque;
use vstd::prelude::*;

verus! {

/// What becomes of a queue that holds `held` of at most `limit` items when
/// `item` is offered to it, and the item that is handed back, if any: a queue
/// with room takes the item at the back, a full queue stays as it is and
/// hands the item back.
pub open spec fn offered<T>(held: Seq<T>, limit: nat, item: T) -> (Seq<T>, Option<T>) {
    if held.len() < limit {
        (held.push(item), None)
    } else {
        (held, Some(item))
    }
}

/// What becomes of a queue that holds `held` when an item is taken out of it,
/// and that item, if any: the oldest.
pub open spec fn drained<T>(held: Seq<T>) -> (Seq<T>, Option<T>) {
    if held.len() > 0 {
        (held.drop_first(), Some(held[0]))
    } else {
        (held, None)
    }
}

/// One use of a queue.
pub enum QueueOp<T> {
    /// A producer offers an item.
    Offer(T),
    /// The consumer takes an item out.
    Take,
}

/// What has come of a run of uses of a queue.
pub struct QueueTrace<T> {
    /// The items in the queue, oldest first.
    pub held: Seq<T>,
    /// The items that the queue took, in the order in which it took them.
    pub accepted: Seq<T>,
    /// The items that were handed back to their producers, in that order.
    pub handed_back: Seq<T>,
    /// The items that the consumer got, in the order in which it got them.
    pub delivered: Seq<T>,
}

/// What comes of the uses `ops`, in their order, of a queue that holds `held`
/// of at most `limit` items.
pub open spec fn after_ops<T>(held: Seq<T>, limit: nat, ops: Seq<QueueOp<T>>) -> QueueTrace<T>
    decreases ops.len(),
{
    if ops.len() == 0 {
        QueueTrace {
            held,
            accepted: Seq::empty(),
            handed_back: Seq::empty(),
            delivered: Seq::empty(),
        }
    } else {
        let before = after_ops(held, limit, ops.drop_last());
        match ops.last() {
            QueueOp::Offer(item) => match offered(before.held, limit, item).1 {
                None => QueueTrace {
                    held: offered(before.held, limit, item).0,
                    accepted: before.accepted.push(item),
                    ..before
                },
                Some(back) => QueueTrace { handed_back: before.handed_back.push(back), ..before },
            },
            QueueOp::Take => match drained(before.held).1 {
                Some(item) => QueueTrace {
                    held: drained(before.held).0,
                    delivered: before.delivered.push(item),
                    ..before
                },
                None => before,
            },
        }
    }
}

/// The items that a run of uses offers, in their order.
pub open spec fn offers<T>(ops: Seq<QueueOp<T>>) -> Seq<T>
    decreases ops.len(),
{
    if ops.len() == 0 {
        Seq::empty()
    } else {
        match ops.last() {
            QueueOp::Offer(item) => offers(ops.drop_last()).push(item),
            QueueOp::Take => offers(ops.drop_last()),
        }
    }
}

/// Saturation delays and does not lose: a full queue hands an offered item
/// back and stays as it is, and once the consumer has taken one item out, the
/// same offer is taken, at the back of the queue.
pub proof fn lemma_full_queue_takes_after_one_drain<T>(held: Seq<T>, limit: nat, item: T)
    requires
        held.len() == limit,
        limit > 0,
    ensures
        offered(held, limit, item) == (held, Some(item)),
        drained(held).1 == Some(held[0]),
        offered(drained(held).0, limit, item) == (held.drop_first().push(item), None::<T>),
{
}

/// Arrival order, and no loss: whatever uses come, in whatever order, the
/// queue stays within its capacity; the items that the consumer got,
/// followed by the items in the queue, are the items that were there at the
/// start followed by the items that the queue took, in the order in which it
/// took them; and every offered item was either taken or handed back.
pub proof fn lemma_queue_keeps_arrival_order<T>(held: Seq<T>, limit: nat, ops: Seq<QueueOp<T>>)
    requires
        held.len() <= limit,
    ensures
        after_ops(held, limit, ops).held.len() <= limit,
        after_ops(held, limit, ops).delivered + after_ops(held, limit, ops).held == held
            + after_ops(held, limit, ops).accepted,
        after_ops(held, limit, ops).accepted.len() + after_ops(held, limit, ops).handed_back.len()
            == offers(ops).len(),
    decreases ops.len(),
{
    if ops.len() == 0 {
        assert(Seq::<T>::empty() + held =~= held + Seq::<T>::empty());
    } else {
        lemma_queue_keeps_arrival_order(held, limit, ops.drop_last());
        let before = after_ops(held, limit, ops.drop_last());
        let after = after_ops(held, limit, ops);
        match ops.last() {
            QueueOp::Offer(item) => {
                if before.held.len() < limit {
                    assert(after.delivered + after.held =~= (before.delivered + before.held).push(
                        item,
                    ));
                    assert(held + after.accepted =~= (held + before.accepted).push(item));
                }
            },
            QueueOp::Take => {
                if before.held.len() > 0 {
                    assert(after.delivered + after.held =~= before.delivered + before.held);
                }
            },
        }
    }
}

/// A first-in, first-out queue that never holds more than its capacity.
pub struct IngestionQueue<T> {
    items: VecDeque<T>,
    capacity: usize,
}

impl<T> IngestionQueue<T> {
    #[verifier::type_invariant]
    spec fn within_capacity(self) -> bool {
        self.items@.len() <= self.capacity
    }

    /// The items in the queue, oldest first.
    pub closed spec fn view(self) -> Seq<T> {
        self.items@
    }

    /// The most items that the queue holds at once.
    pub closed spec fn limit(self) -> nat {
        self.capacity as nat
    }

    /// An empty queue of the given capacity.
    pub fn new(capacity: usize) -> (r: Self)
        ensures
            r@ == Seq::<T>::empty(),
            r.limit() == capacity,
    {
        IngestionQueue { items: VecDeque::new(), capacity }
    }

    /// How many items the queue holds.
    pub fn len(&self) -> (r: usize)
        ensures
            r == self@.len(),
            r <= self.limit(),
    {
        proof {
            use_type_invariant(self);
        }
        self.items.len()
    }

    /// The capacity that the queue was made with.
    pub fn capacity(&self) -> (r: usize)
        ensures
            r == self.limit(),
    {
        self.capacity
    }

    /// How many more items the queue takes before it is full.
    pub fn free(&self) -> (r: usize)
        ensures
            r == self.limit() - self@.len(),
    {
        proof {
            use_type_invariant(self);
        }
        self.capacity - self.items.len()
    }

    /// Whether the queue holds nothing.
    pub fn is_empty(&self) -> (r: bool)
        ensures
            r == (self@.len() == 0),
    {
        self.items.len() == 0
    }

    /// Whether the queue is at its capacity.
    pub fn is_full(&self) -> (r: bool)
        ensures
            r == (self@.len() == self.limit()),
    {
        proof {
            use_type_invariant(self);
        }
        self.items.len() >= self.capacity
    }

    /// Puts `item` at the back of the queue, or hands it back where the queue
    /// is full. A producer that must not lose the item waits for the consumer
    /// and offers it again.
    pub fn try_enqueue(&mut self, item: T) -> (r: Result<(), T>)
        ensures
            final(self).limit() == old(self).limit(),
            (final(self)@, handed_back(r)) == offered(old(self)@, old(self).limit(), item),
    {
        proof {
            use_type_invariant(&*self);
        }
        if self.items.len() >= self.capacity {
            Err(item)
        } else {
            let mut items: VecDeque<T> = VecDeque::new();
            std::mem::swap(&mut self.items, &mut items);
            items.push_back(item);
            std::mem::swap(&mut self.items, &mut items);
            Ok(())
        }
    }

    /// Puts `item` at the back of the queue, or discards it where the queue is
    /// full. Returns whether the item was taken.
    pub fn offer(&mut self, item: T) -> (r: bool)
        ensures
            final(self).limit() == old(self).limit(),
            r == (old(self)@.len() < old(self).limit()),
            final(self)@ == offered(old(self)@, old(self).limit(), item).0,
    {
        match self.try_enqueue(item) {
            Ok(_) => true,
            Err(_) => false,
        }
    }

    /// Puts all of `items` at the back of the queue, in their order, or hands
    /// them all back where the queue has not room for every one of them.
    pub fn enqueue_all(&mut self, items: Vec<T>) -> (r: Result<(), Vec<T>>)
        ensures
            final(self).limit() == old(self).limit(),
            match r {
                Ok(_) => old(self)@.len() + items@.len() <= old(self).limit() && final(self)@
                    == old(self)@ + items@,
                Err(back) => old(self)@.len() + items@.len() > old(self).limit() && back == items
                    && final(self)@ == old(self)@,
            },
    {
        proof {
            use_type_invariant(&*self);
        }
        if items.len() > self.capacity - self.items.len() {
            return Err(items);
        }
        let ghost before = self.items@;
        let ghost all = items@;
        let mut held: VecDeque<T> = VecDeque::new();
        std::mem::swap(&mut self.items, &mut held);
        for item in it: items
            invariant
                it.seq() == all,
                held@ == before + all.take(it.index()),
        {
            proof {
                assert(before + all.take(it.index() + 1) =~= (before + all.take(it.index())).push(
                    item,
                ));
            }
            held.push_back(item);
        }
        proof {
            assert(all.take(all.len() as int) =~= all);
        }
        std::mem::swap(&mut self.items, &mut held);
        Ok(())
    }

    /// Takes the oldest item out of the queue, or returns `None` where the
    /// queue is empty.
    pub fn dequeue(&mut self) -> (r: Option<T>)
        ensures
            final(self).limit() == old(self).limit(),
            (final(self)@, r) == drained(old(self)@),
    {
        proof {
            use_type_invariant(&*self);
        }
        let mut items: VecDeque<T> = VecDeque::new();
        std::mem::swap(&mut self.items, &mut items);
        let r = items.pop_front();
        std::mem::swap(&mut self.items, &mut items);
        proof {
            if r is Some {
                assert(old(self)@.subrange(1, old(self)@.len() as int) =~= old(self)@.drop_first());
            }
        }
        r
    }
}

/// The item that an offer handed back, if any.
pub open spec fn handed_back<T>(r: Result<(), T>) -> Option<T> {
    match r {
        Ok(_) => None,
        Err(item) => Some(item),
    }
}

} // verus!

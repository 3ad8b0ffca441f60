//! The per-module update channel: a bounded queue from the controller to
//! the UI-thread receive loop, with two delivery policies.
//!
//! Guaranteed delivery (`send_update`) is used for state transitions that
//! must not be lost; in the running bar the producer suspends until the
//! queue has room, which the model captures as the capacity precondition.
//! Best-effort delivery (`try_send`) never blocks: a value offered to a
//! full queue is dropped and counted instead.

use vstd::prelude::*;

verus! {

/// A bounded channel of capacity `capacity`, carrying values of `T` in
/// emission order.  `sent` and `delivered` record the history of the two
/// endpoints; the queue holds what is sent but not yet delivered.
pub struct UpdateChannel<T> {
    capacity: usize,
    queue: Vec<T>,
    sent: Ghost<Seq<T>>,
    delivered: Ghost<Seq<T>>,
    dropped: u64,
}

impl<T> UpdateChannel<T> {
    /// Everything accepted for guaranteed delivery so far, in order.
    pub closed spec fn sent(self) -> Seq<T> {
        self.sent@
    }

    /// Everything the consumer has taken so far, in order.
    pub closed spec fn delivered(self) -> Seq<T> {
        self.delivered@
    }

    /// What is sent but not yet delivered, oldest first.
    pub closed spec fn pending(self) -> Seq<T> {
        self.queue@
    }

    /// The bound the channel was created with.
    pub closed spec fn cap(self) -> usize {
        self.capacity
    }

    /// How many best-effort values have been dropped against a full queue.
    pub closed spec fn dropped_count(self) -> u64 {
        self.dropped
    }

    /// The channel's invariant: the capacity is at least one, the queue
    /// respects it, and the sent history is exactly the delivered history
    /// followed by the queue — no accepted value is ever lost.
    pub closed spec fn wf(self) -> bool {
        &&& self.capacity >= 1
        &&& self.queue@.len() <= self.capacity
        &&& self.sent@ == self.delivered@ + self.queue@
    }

    /// An empty channel with the given bound.
    pub fn new(capacity: usize) -> (c: UpdateChannel<T>)
        requires
            capacity >= 1,
        ensures
            c.wf(),
            c.cap() == capacity,
            c.sent() == Seq::<T>::empty(),
            c.delivered() == Seq::<T>::empty(),
            c.pending() == Seq::<T>::empty(),
            c.dropped_count() == 0,
    {
        let c = UpdateChannel {
            capacity,
            queue: Vec::new(),
            sent: Ghost(Seq::empty()),
            delivered: Ghost(Seq::empty()),
            dropped: 0,
        };
        proof {
            assert(c.sent@ =~= c.delivered@ + c.queue@);
        }
        c
    }

    /// Whether a guaranteed send could proceed right now.
    pub fn has_space(&self) -> (b: bool)
        ensures
            b == (self.pending().len() < self.cap()),
    {
        self.queue.len() < self.capacity
    }

    /// Guaranteed delivery: accepts the value into the queue.  The
    /// capacity precondition models the producer having suspended until
    /// room was available; the value is never dropped.
    pub fn send_update(&mut self, value: T)
        requires
            old(self).wf(),
            old(self).pending().len() < old(self).cap(),
        ensures
            final(self).wf(),
            final(self).sent() == old(self).sent().push(value),
            final(self).delivered() == old(self).delivered(),
            final(self).pending() == old(self).pending().push(value),
            final(self).cap() == old(self).cap(),
            final(self).dropped_count() == old(self).dropped_count(),
    {
        let ghost v = value;
        self.queue.push(value);
        proof {
            self.sent@ = self.sent@.push(v);
            assert(self.sent@ =~= self.delivered@ + self.queue@);
        }
    }

    /// Best-effort delivery: never blocks the caller.  If the queue has
    /// room the value is accepted exactly as a guaranteed send would; if
    /// the queue is full the value is dropped and the drop counter grows
    /// by one — on every such call, without panicking.
    pub fn try_send(&mut self, value: T) -> (accepted: bool)
        requires
            old(self).wf(),
            old(self).dropped_count() < u64::MAX,
        ensures
            final(self).wf(),
            accepted == (old(self).pending().len() < old(self).cap()),
            final(self).cap() == old(self).cap(),
            final(self).delivered() == old(self).delivered(),
            accepted ==> {
                &&& final(self).sent() == old(self).sent().push(value)
                &&& final(self).pending() == old(self).pending().push(value)
                &&& final(self).dropped_count() == old(self).dropped_count()
            },
            !accepted ==> {
                &&& final(self).sent() == old(self).sent()
                &&& final(self).pending() == old(self).pending()
                &&& final(self).dropped_count() == old(self).dropped_count() + 1
            },
    {
        if self.queue.len() < self.capacity {
            let ghost v = value;
            self.queue.push(value);
            proof {
                self.sent@ = self.sent@.push(v);
                assert(self.sent@ =~= self.delivered@ + self.queue@);
            }
            true
        } else {
            self.dropped = self.dropped + 1;
            false
        }
    }

    /// The drop counter, for logging and for guarding further sends.
    pub fn dropped(&self) -> (n: u64)
        ensures
            n == self.dropped_count(),
    {
        self.dropped
    }

    /// The consumer side: takes the oldest pending value, if any.  Values
    /// come out in exactly the order they were accepted.
    pub fn recv(&mut self) -> (r: Option<T>)
        requires
            old(self).wf(),
        ensures
            final(self).wf(),
            final(self).cap() == old(self).cap(),
            final(self).sent() == old(self).sent(),
            final(self).dropped_count() == old(self).dropped_count(),
            old(self).pending().len() == 0 ==> {
                &&& r is None
                &&& final(self).pending() == old(self).pending()
                &&& final(self).delivered() == old(self).delivered()
            },
            old(self).pending().len() > 0 ==> {
                &&& r == Some(old(self).pending()[0])
                &&& final(self).pending() == old(self).pending().drop_first()
                &&& final(self).delivered() == old(self).delivered().push(old(self).pending()[0])
            },
    {
        if self.queue.len() == 0 {
            None
        } else {
            let v = self.queue.remove(0);
            let ghost d = v;
            proof {
                self.delivered@ = self.delivered@.push(d);
                assert(self.queue@ =~= old(self).queue@.drop_first());
                assert(self.sent@ =~= self.delivered@ + self.queue@);
            }
            Some(v)
        }
    }
}

/// Law: under guaranteed delivery nothing is ever dropped — at every
/// reachable state, the values accepted so far are exactly the values
/// delivered so far followed by the values still pending, so every
/// accepted value is delivered once the consumer catches up, in order.
pub proof fn lemma_guaranteed_no_loss<T>(c: UpdateChannel<T>)
    requires
        c.wf(),
    ensures
        c.sent() == c.delivered() + c.pending(),
        c.delivered().len() + c.pending().len() == c.sent().len(),
        c.delivered() == c.sent().take(c.delivered().len() as int),
{
    assert(c.delivered() =~= c.sent().take(c.delivered().len() as int));
}

} // verus!

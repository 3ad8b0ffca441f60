//! The broadcast subscription: a multi-subscriber view over a module's
//! update stream.  Every live subscriber sees every emitted value in
//! order; a subscriber that falls further behind than the retained
//! window loses the oldest values — by design, since the UI only needs
//! the latest state — and is told how many it missed.

use vstd::prelude::*;

verus! {

/// What one poll of a subscription yields.
#[derive(Clone, Copy, Debug, PartialEq, Eq, Structural)]
pub enum BroadcastRecv<T> {
    /// Nothing was emitted since the last poll.
    Empty,
    /// The subscriber lagged: this many values were lost to it; the next
    /// poll resumes at the oldest value still retained.
    Lagged(usize),
    /// The next value, in emission order.
    Value(T),
}

/// A broadcast stream retaining a window of `capacity` values.  The full
/// emission history is the model; each subscriber holds a cursor into it.
pub struct BroadcastStream<T> {
    capacity: usize,
    history: Vec<T>,
    cursors: Vec<usize>,
}

impl<T: Copy> BroadcastStream<T> {
    /// Everything emitted so far, in order.
    pub closed spec fn sent(self) -> Seq<T> {
        self.history@
    }

    /// The retained window's size.
    pub closed spec fn cap(self) -> usize {
        self.capacity
    }

    /// How many subscriptions were taken.
    pub closed spec fn num_subs(self) -> int {
        self.cursors@.len() as int
    }

    /// The position in the emission history a subscriber reads next.
    pub closed spec fn cursor(self, id: int) -> int {
        self.cursors@[id] as int
    }

    /// The stream's invariant: a positive window, and no cursor beyond
    /// the history's end.
    pub closed spec fn wf(self) -> bool {
        &&& self.capacity >= 1
        &&& forall|i: int| 0 <= i < self.cursors@.len() ==> self.cursors@[i] <= self.history@.len()
    }

    /// A stream with the given window and no subscribers.
    pub fn new(capacity: usize) -> (s: BroadcastStream<T>)
        requires
            capacity >= 1,
        ensures
            s.wf(),
            s.cap() == capacity,
            s.sent() == Seq::<T>::empty(),
            s.num_subs() == 0,
    {
        BroadcastStream { capacity, history: Vec::new(), cursors: Vec::new() }
    }

    /// Emits one value to every subscriber.
    pub fn send(&mut self, value: T)
        requires
            old(self).wf(),
            old(self).sent().len() < usize::MAX,
        ensures
            final(self).wf(),
            final(self).sent() == old(self).sent().push(value),
            final(self).cap() == old(self).cap(),
            final(self).num_subs() == old(self).num_subs(),
            forall|i: int|
                0 <= i < old(self).num_subs() ==> final(self).cursor(i) == old(self).cursor(i),
    {
        self.history.push(value);
    }

    /// Takes a new subscription; it sees only values emitted after it.
    pub fn subscribe(&mut self) -> (id: usize)
        requires
            old(self).wf(),
        ensures
            final(self).wf(),
            id == old(self).num_subs(),
            final(self).num_subs() == old(self).num_subs() + 1,
            final(self).cursor(id as int) == old(self).sent().len(),
            final(self).sent() == old(self).sent(),
            final(self).cap() == old(self).cap(),
            forall|i: int|
                0 <= i < old(self).num_subs() ==> final(self).cursor(i) == old(self).cursor(i),
    {
        let id = self.cursors.len();
        self.cursors.push(self.history.len());
        id
    }

    /// Polls one subscription.  While the subscriber is no further behind
    /// than the window it receives exactly the next emitted value — no
    /// value is ever skipped.  Behind the window it is told how many
    /// values it lost and resumes at the oldest retained one.
    pub fn recv(&mut self, id: usize) -> (r: BroadcastRecv<T>)
        requires
            old(self).wf(),
            0 <= id < old(self).num_subs(),
        ensures
            final(self).wf(),
            final(self).sent() == old(self).sent(),
            final(self).cap() == old(self).cap(),
            final(self).num_subs() == old(self).num_subs(),
            forall|i: int|
                0 <= i < old(self).num_subs() && i != id ==> final(self).cursor(i) == old(
                    self,
                ).cursor(i),
            ({
                let lag = old(self).sent().len() - old(self).cursor(id as int);
                &&& lag == 0 ==> r == BroadcastRecv::<T>::Empty && final(self).cursor(id as int)
                    == old(self).cursor(id as int)
                &&& 0 < lag <= old(self).cap() ==> r == BroadcastRecv::Value(
                    old(self).sent()[old(self).cursor(id as int)],
                ) && final(self).cursor(id as int) == old(self).cursor(id as int) + 1
                &&& lag > old(self).cap() ==> r == BroadcastRecv::<T>::Lagged(
                    (lag - old(self).cap()) as usize,
                ) && final(self).cursor(id as int) == old(self).sent().len() - old(self).cap()
            }),
    {
        let cursor = self.cursors[id];
        let len = self.history.len();
        if cursor == len {
            BroadcastRecv::Empty
        } else if len - cursor <= self.capacity {
            let value = self.history[cursor];
            self.cursors.set(id, cursor + 1);
            BroadcastRecv::Value(value)
        } else {
            let missed = len - cursor - self.capacity;
            self.cursors.set(id, len - self.capacity);
            BroadcastRecv::Lagged(missed)
        }
    }
}

} // verus!

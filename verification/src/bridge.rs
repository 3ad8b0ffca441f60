//! The executable best-effort sender over the async runtime's bounded
//! channel.  The guaranteed path awaits capacity and therefore lives with
//! the controllers on the runtime; the best-effort path is synchronous,
//! so it stands here: a send that never blocks, and a counter of the
//! values dropped against a full or torn-down channel.

use vstd::prelude::*;

verus! {

#[verifier::external_type_specification]
#[verifier::external_body]
#[verifier::reject_recursive_types(T)]
pub struct ExSender<T>(tokio::sync::mpsc::Sender<T>);

/// Relies on tokio::sync::mpsc::Sender::try_send: queues the message if
/// the bounded channel has a free permit and returns whether it did; when
/// the channel is full or closed the message comes back in the error at
/// once.  The call is synchronous and never blocks or panics.  Whether it
/// succeeds depends on the channel's state at that instant, so nothing is
/// promised of the result.
#[verifier::external_body]
fn try_send_now<T>(tx: &tokio::sync::mpsc::Sender<T>, value: T) -> (accepted: bool) {
    tx.try_send(value).is_ok()
}

/// A sender with best-effort delivery: offers each value to the channel
/// without ever blocking the caller, and counts the values the channel
/// did not take.
#[verifier::reject_recursive_types(T)]
pub struct BestEffortSender<T> {
    tx: tokio::sync::mpsc::Sender<T>,
    dropped: u64,
}

impl<T> BestEffortSender<T> {
    /// How many values the channel has refused so far.
    pub closed spec fn dropped_count(self) -> u64 {
        self.dropped
    }

    /// Wraps a channel's send half; nothing has been dropped yet.
    pub fn new(tx: tokio::sync::mpsc::Sender<T>) -> (s: BestEffortSender<T>)
        ensures
            s.dropped_count() == 0,
    {
        BestEffortSender { tx, dropped: 0 }
    }

    /// Offers one value to the channel.  Whatever the channel's state,
    /// the call returns at once; every refused value — and only a refused
    /// value — raises the drop counter by exactly one, so repeated sends
    /// against a full channel strictly increase it without panicking.
    pub fn send(&mut self, value: T) -> (accepted: bool)
        requires
            old(self).dropped_count() < u64::MAX,
        ensures
            accepted ==> final(self).dropped_count() == old(self).dropped_count(),
            !accepted ==> final(self).dropped_count() == old(self).dropped_count() + 1,
    {
        let accepted = try_send_now(&self.tx, value);
        if !accepted {
            self.dropped = self.dropped + 1;
        }
        accepted
    }

    /// The drop counter, for logging and for guarding further sends.
    pub fn dropped(&self) -> (n: u64)
        ensures
            n == self.dropped_count(),
    {
        self.dropped
    }
}

} // verus!

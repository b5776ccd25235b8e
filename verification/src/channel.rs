use vstd::prelude::*;

verus! {

/// Why a send into the bridge channel failed.
#[derive(Clone, Copy, Debug, PartialEq, Eq, Structural)]
pub enum SendError {
    /// The receiving end is gone; the payload was not enqueued.
    Disconnected,
}

/// The bridge channel: an unbounded first-in-first-out queue of payloads
/// with any number of sending handles and one receiving end. `items` holds
/// the payloads sent but not yet received, oldest first; `senders` counts
/// the live sending handles (the channel is closed when it reaches zero);
/// `receiver_alive` records whether the receiving end still exists.
///
/// In the running system the two ends live on different threads and a
/// receive on an empty open channel suspends the receiving task; here that
/// wait is the precondition of `recv`: it is called once a payload is
/// available or every sender is gone.
#[derive(Debug)]
pub struct BridgeChannel<T> {
    pub items: Vec<T>,
    pub senders: usize,
    pub receiver_alive: bool,
}

impl<T> BridgeChannel<T> {
    /// A fresh channel: empty, one sending handle, receiver present.
    pub fn new() -> (c: Self)
        ensures
            c.items@ == Seq::<T>::empty(),
            c.senders == 1,
            c.receiver_alive,
    {
        BridgeChannel { items: Vec::new(), senders: 1, receiver_alive: true }
    }

    /// Hands out one more sending handle.
    pub fn clone_sender(&mut self)
        requires
            old(self).senders >= 1,
            old(self).senders < usize::MAX,
        ensures
            final(self).items@ == old(self).items@,
            final(self).senders == old(self).senders + 1,
            final(self).receiver_alive == old(self).receiver_alive,
    {
        self.senders = self.senders + 1;
    }

    /// Gives up one sending handle; when the last one goes the channel is
    /// closed and the receiver will drain what is queued, then end.
    pub fn drop_sender(&mut self)
        requires
            old(self).senders >= 1,
        ensures
            final(self).items@ == old(self).items@,
            final(self).senders == old(self).senders - 1,
            final(self).receiver_alive == old(self).receiver_alive,
    {
        self.senders = self.senders - 1;
    }

    /// Tears down the receiving end. Payloads still queued are discarded:
    /// after teardown nothing will ever read them.
    pub fn drop_receiver(&mut self)
        ensures
            final(self).items@ == Seq::<T>::empty(),
            final(self).senders == old(self).senders,
            !final(self).receiver_alive,
    {
        self.items = Vec::new();
        self.receiver_alive = false;
    }

    /// Enqueues one payload at the back. Never blocks; succeeds exactly
    /// when the receiving end is still alive, and otherwise reports the
    /// disconnect and leaves the queue untouched.
    pub fn send(&mut self, t: T) -> (r: Result<(), SendError>)
        requires
            old(self).senders >= 1,
        ensures
            final(self).senders == old(self).senders,
            final(self).receiver_alive == old(self).receiver_alive,
            old(self).receiver_alive ==> (r == Ok::<(), SendError>(()) && final(self).items@
                == old(self).items@.push(t)),
            !old(self).receiver_alive ==> (r == Err::<(), SendError>(SendError::Disconnected)
                && final(self).items@ == old(self).items@),
    {
        if self.receiver_alive {
            self.items.push(t);
            Ok(())
        } else {
            Err(SendError::Disconnected)
        }
    }

    /// Dequeues the oldest payload. The caller waits until a payload is
    /// queued or the channel is closed; a closed, drained channel yields
    /// nothing, the normal end of the stream.
    pub fn recv(&mut self) -> (r: Option<T>)
        requires
            old(self).receiver_alive,
            old(self).items@.len() > 0 || old(self).senders == 0,
        ensures
            final(self).senders == old(self).senders,
            final(self).receiver_alive,
            old(self).items@.len() > 0 ==> (r == Some(old(self).items@[0]) && final(self).items@
                == old(self).items@.remove(0)),
            old(self).items@.len() == 0 ==> (r is None && final(self).items@ == old(self).items@),
    {
        if self.items.len() > 0 {
            Some(self.items.remove(0))
        } else {
            None
        }
    }

    /// Whether every sending handle is gone.
    pub fn is_closed(&self) -> (r: bool)
        ensures
            r == (self.senders == 0),
    {
        self.senders == 0
    }

    /// How many payloads are queued.
    pub fn len(&self) -> (r: usize)
        ensures
            r == self.items@.len(),
    {
        self.items.len()
    }
}

/// The prefix a receiver observes after `n` receives from a queue holding
/// `q`, each receive taking the oldest payload, as `recv` does.
pub open spec fn received<T>(q: Seq<T>, n: int) -> Seq<T>
    decreases n,
{
    if n <= 0 {
        Seq::empty()
    } else {
        seq![q[0]] + received(q.remove(0), n - 1)
    }
}

/// Ordering law: a consumer that receives `n` times observes exactly the
/// first `n` payloads, in the order they were enqueued — no reordering, no
/// batching, no drops.
pub proof fn lemma_fifo_ordering<T>(q: Seq<T>, n: int)
    requires
        0 <= n <= q.len(),
    ensures
        received(q, n) == q.take(n),
    decreases n,
{
    if n > 0 {
        lemma_fifo_ordering(q.remove(0), n - 1);
        assert(q.take(n) =~= seq![q[0]] + q.remove(0).take(n - 1));
        assert(received(q, n) =~= q.take(n));
    }
}

/// Ordering law, whole stream: draining the queue observes every payload
/// in enqueue order.
pub proof fn lemma_fifo_ordering_full<T>(q: Seq<T>)
    ensures
        received(q, q.len() as int) == q,
{
    lemma_fifo_ordering(q, q.len() as int);
    assert(q.take(q.len() as int) =~= q);
}

} // verus!

//! The consumer handle and its factory. Handles cooperate only through
//! the Wake Link chain threaded between consecutive handles: handle 0
//! is the only one that ever blocks directly on the channel, and every
//! other handle sleeps on its inbound link until its predecessor is
//! saturated.

use vstd::prelude::*;
use crate::policy::{BATCH_SIZE, DrainEnd, RecvAction, recv_action, spec_recv_action};
use crate::wake_link::{WakeLinkWait, WakeLinkSignal, wake_link};

verus! {

/// The single failure this primitive can report: the channel has no
/// more producers and no more buffered items reachable by this handle.
/// Once a handle observes it, that handle observes it forever.
pub enum QueueError {
    Disconnected,
}

/// One cloneable endpoint over the shared work channel. Clones compete
/// for the same logical stream: each item is delivered to exactly one
/// clone. `try_receive` must not block; `receive` may block until an
/// item arrives or the channel is disconnected, and its failure is
/// permanent (the channel never reconnects).
pub trait QueueReceiver: Clone {
    type Item;

    fn try_receive(&self) -> Result<Option<Self::Item>, QueueError>;

    fn receive(&self) -> Result<Self::Item, QueueError>;
}

/// A per-thread receiver over the shared channel, with the wake bias
/// built in structurally: an inbound Wake Link wait side (absent only
/// for handle 0) and an outbound signal side toward the next handle
/// (absent only for the last handle).
pub struct BiasedWorkQueueReceiver<R: QueueReceiver> {
    /// The single work queue channel.
    receiver: R,
    /// For all handles but the first one, we block on this instead of
    /// the channel.
    parker: Option<WakeLinkWait>,
    /// For all handles but the last one, we wake up the next handle
    /// when there is more than enough work for this one.
    next_thread_unparker: Option<WakeLinkSignal>,
}

/// What one round of the receive algorithm produced.
pub enum RecvStep<T> {
    /// A fresh batch of one to `BATCH_SIZE` items, owned by the caller.
    Batch(Vec<T>),
    /// The channel is closed and drained for this handle; the shutdown
    /// has already been forwarded downstream where needed.
    Disconnected,
    /// The round blocked on the inbound Wake Link, woke up, and found
    /// no work yet: the wakeup was stale. The caller simply runs
    /// another round. Handle 0 never reports this.
    Pending,
}

/// Builds one receiver handle per consumer thread over a shared
/// channel endpoint, chaining N-1 Wake Links between consecutive
/// handles: handle i's outbound signal side is handle i+1's inbound
/// wait side.
pub fn biased_work_queue<R: QueueReceiver>(rx: R, threads: usize) -> (r: Vec<
    BiasedWorkQueueReceiver<R>,
>)
    requires
        threads >= 1,
    ensures
        r@.len() == threads,
        forall|j: int|
            0 <= j < threads ==> ((#[trigger] r@[j]).spec_has_inbound_link() <==> j != 0),
        forall|j: int|
            0 <= j < threads ==> ((#[trigger] r@[j]).spec_has_outbound_link() <==> j != threads
                - 1),
{
    let mut receivers: Vec<BiasedWorkQueueReceiver<R>> = Vec::new();
    let mut pending_wait: Option<WakeLinkWait> = None;
    let mut i: usize = 0;
    while i < threads
        invariant
            i <= threads,
            receivers@.len() == i,
            pending_wait is Some <==> 0 < i < threads,
            forall|j: int|
                0 <= j < i ==> ((#[trigger] receivers@[j]).spec_has_inbound_link() <==> j != 0),
            forall|j: int|
                0 <= j < i ==> ((#[trigger] receivers@[j]).spec_has_outbound_link() <==> j + 1
                    < threads),
        decreases threads - i,
    {
        let inbound = pending_wait;
        let (outbound, next_wait) = if i + 1 < threads {
            let (wait_side, signal_side) = wake_link();
            (Some(signal_side), Some(wait_side))
        } else {
            (None, None)
        };
        receivers.push(
            BiasedWorkQueueReceiver {
                receiver: rx.clone(),
                parker: inbound,
                next_thread_unparker: outbound,
            },
        );
        pending_wait = next_wait;
        i = i + 1;
    }
    receivers
}

impl<R: QueueReceiver> BiasedWorkQueueReceiver<R> {
    /// Whether this handle sleeps on an inbound Wake Link rather than
    /// on the channel itself; false exactly for handle 0.
    pub closed spec fn spec_has_inbound_link(&self) -> bool {
        self.parker is Some
    }

    /// Whether this handle has a successor to wake; false exactly for
    /// the last handle.
    pub closed spec fn spec_has_outbound_link(&self) -> bool {
        self.next_thread_unparker is Some
    }

    pub fn has_inbound_link(&self) -> (r: bool)
        ensures
            r == self.spec_has_inbound_link(),
    {
        self.parker.is_some()
    }

    pub fn has_outbound_link(&self) -> (r: bool)
        ensures
            r == self.spec_has_outbound_link(),
    {
        self.next_thread_unparker.is_some()
    }

    /// One round of the batched receive algorithm: drain the channel
    /// without blocking, decide through the receive policy, perform at
    /// most one blocking wait. Exposing the round keeps every call
    /// provably terminating once its single blocking call returns; a
    /// worker drives rounds in a loop until it sees `Disconnected`,
    /// treating `Pending` as a stale wakeup and simply going round
    /// again.
    ///
    /// A successful round never hands out an empty batch, and only a
    /// handle with an inbound link (never handle 0) can report
    /// `Pending`.
    pub fn recv_step(&self) -> (r: RecvStep<R::Item>)
        ensures
            r matches RecvStep::Batch(batch) ==> 1 <= batch@.len() && batch@.len() <= BATCH_SIZE,
            r is Pending ==> self.spec_has_inbound_link(),
    {
        let mut buf: Vec<R::Item> = Vec::new();
        let end = self.drain_into(&mut buf);
        let has_next = self.next_thread_unparker.is_some();
        match recv_action(buf.len(), end, has_next) {
            RecvAction::Deliver { wake_next } => {
                if wake_next {
                    self.signal_next();
                }
                RecvStep::Batch(buf)
            },
            RecvAction::ReportDisconnect { wake_next: _ } => {
                // The policy wakes the successor here exactly when one
                // exists, which is just what `signal_next` does.
                self.signal_next();
                RecvStep::Disconnected
            },
            RecvAction::WaitForWork => {
                match &self.parker {
                    Some(wait_side) => {
                        // Wait for the previous thread to wake us up
                        // because it is overloaded.
                        wait_side.wait();
                        RecvStep::Pending
                    },
                    None => {
                        // This is the first thread, so just do a
                        // blocking read from the channel, then grab as
                        // much more as we can without blocking again.
                        match self.receiver.receive() {
                            Ok(item) => {
                                buf.push(item);
                                let end_after = self.drain_into(&mut buf);
                                proof {
                                    assert(spec_recv_action(buf@.len(), end_after, has_next) == (
                                    RecvAction::Deliver {
                                        wake_next: has_next && buf@.len() >= BATCH_SIZE,
                                    }));
                                }
                                if buf.len() >= BATCH_SIZE {
                                    self.signal_next();
                                }
                                RecvStep::Batch(buf)
                            },
                            Err(_) => {
                                // The channel closed while we waited
                                // on it, and a permanent failure of
                                // the blocking read means there is
                                // nothing left to drain: forward the
                                // shutdown downstream and report it.
                                self.signal_next();
                                RecvStep::Disconnected
                            },
                        }
                    },
                }
            },
        }
    }

    /// Drains the channel without blocking into `buf`, stopping once
    /// the batch is full, the channel is momentarily empty, or the
    /// channel is disconnected. Items already in `buf` stay in place,
    /// and drained items follow in channel delivery order.
    fn drain_into(&self, buf: &mut Vec<R::Item>) -> (end: DrainEnd)
        requires
            old(buf)@.len() <= BATCH_SIZE,
        ensures
            old(buf)@.len() <= final(buf)@.len(),
            final(buf)@.len() <= BATCH_SIZE,
            final(buf)@.subrange(0, old(buf)@.len() as int) == old(buf)@,
            end is Full <==> final(buf)@.len() == BATCH_SIZE,
    {
        loop
            invariant
                old(buf)@.len() <= buf@.len(),
                buf@.len() <= BATCH_SIZE,
                buf@.subrange(0, old(buf)@.len() as int) == old(buf)@,
            decreases BATCH_SIZE - buf@.len(),
        {
            if buf.len() >= BATCH_SIZE {
                return DrainEnd::Full;
            }
            match self.receiver.try_receive() {
                Ok(Some(item)) => {
                    let ghost pre = buf@;
                    buf.push(item);
                    proof {
                        assert(buf@.subrange(0, old(buf)@.len() as int) =~= pre.subrange(
                            0,
                            old(buf)@.len() as int,
                        ));
                    }
                },
                Ok(None) => {
                    return DrainEnd::Empty;
                },
                Err(_) => {
                    return DrainEnd::Disconnected;
                },
            }
        }
    }

    fn signal_next(&self) {
        match &self.next_thread_unparker {
            Some(signal_side) => signal_side.signal(),
            None => {},
        }
    }
}

} // verus!

//! The per-round policy of the batched receive algorithm: given how a
//! non-blocking drain pass ended and how many items it gathered, decide
//! whether to hand the batch out, report shutdown, or block for more
//! work — and whether to wake the next handle in the chain.

use vstd::prelude::*;

verus! {

/// Maximum number of items drained per non-blocking pass before the
/// batch is handed to the caller. A full batch is the local evidence
/// that the current thread cannot keep up alone.
pub const BATCH_SIZE: usize = 20;

/// How one non-blocking drain pass over the channel came to an end.
#[derive(Clone, Copy, PartialEq, Eq, Structural, Debug)]
pub enum DrainEnd {
    /// The batch reached `BATCH_SIZE` items.
    Full,
    /// The channel had no item ready, but producers may still exist.
    Empty,
    /// All producers are gone and nothing more was buffered.
    Disconnected,
}

/// What a receive round does after its drain pass.
#[derive(Clone, Copy, PartialEq, Eq, Structural, Debug)]
pub enum RecvAction {
    /// Hand the batch to the caller; wake the next handle iff `wake_next`.
    Deliver { wake_next: bool },
    /// Report that the channel is closed; wake the next handle iff
    /// `wake_next`, so it does not wait forever for help that will
    /// never come from this handle again.
    ReportDisconnect { wake_next: bool },
    /// Nothing to deliver and the channel is still open: block until
    /// there is a chance of new work.
    WaitForWork,
}

/// The receive policy as a mathematical function.
///
/// A disconnect with an empty batch is surfaced at once, forwarding the
/// shutdown downstream; an empty batch on an open channel means the
/// round must block; any non-empty batch is delivered, waking the next
/// handle exactly when the batch is full (`len >= BATCH_SIZE`) and a
/// next handle exists.
pub open spec fn spec_recv_action(len: nat, end: DrainEnd, has_next: bool) -> RecvAction {
    match end {
        DrainEnd::Disconnected => if len == 0 {
            RecvAction::ReportDisconnect { wake_next: has_next }
        } else {
            RecvAction::Deliver { wake_next: false }
        },
        DrainEnd::Empty => if len == 0 {
            RecvAction::WaitForWork
        } else {
            RecvAction::Deliver { wake_next: false }
        },
        DrainEnd::Full => RecvAction::Deliver { wake_next: has_next },
    }
}

/// Executable form of the receive policy.
pub fn recv_action(len: usize, end: DrainEnd, has_next: bool) -> (a: RecvAction)
    ensures
        a == spec_recv_action(len as nat, end, has_next),
{
    match end {
        DrainEnd::Disconnected => if len == 0 {
            RecvAction::ReportDisconnect { wake_next: has_next }
        } else {
            RecvAction::Deliver { wake_next: false }
        },
        DrainEnd::Empty => if len == 0 {
            RecvAction::WaitForWork
        } else {
            RecvAction::Deliver { wake_next: false }
        },
        DrainEnd::Full => RecvAction::Deliver { wake_next: has_next },
    }
}

/// A handle that finds the channel disconnected before it drained
/// anything reports the disconnect immediately and forwards the
/// shutdown signal to its successor, if it has one.
pub proof fn lemma_empty_disconnect_reported_and_forwarded(has_next: bool)
    ensures
        spec_recv_action(0, DrainEnd::Disconnected, has_next)
            == (RecvAction::ReportDisconnect { wake_next: has_next }),
{
}

/// The bias guarantee at the policy level: a round that gathered fewer
/// than `BATCH_SIZE` items never wakes the next handle, so under light
/// load the successor stays parked. (A drain pass can only end `Full`
/// once the batch holds `BATCH_SIZE` items.)
pub proof fn lemma_under_capacity_never_wakes(len: nat, end: DrainEnd, has_next: bool)
    requires
        end is Full ==> len >= BATCH_SIZE,
    ensures
        len < BATCH_SIZE
            ==> !(spec_recv_action(len, end, has_next) matches RecvAction::Deliver { wake_next: true }),
{
}

/// The overload guarantee at the policy level: a round whose drain pass
/// filled the batch delivers it and wakes the next handle whenever one
/// exists.
pub proof fn lemma_full_batch_wakes(has_next: bool)
    ensures
        spec_recv_action(BATCH_SIZE as nat, DrainEnd::Full, has_next)
            == (RecvAction::Deliver { wake_next: has_next }),
{
}

} // verus!

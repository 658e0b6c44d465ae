//! The Wake Link: a pairwise synchronization edge between two adjacent
//! handles. One side can block until signaled; the other side can
//! signal it without blocking. A signal delivered before the wait is
//! retained (not lost), and signals delivered while one is already
//! retained coalesce into one wakeup.

use vstd::prelude::*;

verus! {

#[verifier::external_type_specification]
#[verifier::external_body]
pub struct ExParker(crossbeam::sync::Parker);

#[verifier::external_type_specification]
#[verifier::external_body]
pub struct ExUnparker(crossbeam::sync::Unparker);

/// The side of a Wake Link that a handle blocks on.
pub struct WakeLinkWait {
    parker: crossbeam::sync::Parker,
}

/// The side of a Wake Link that a handle signals without blocking.
pub struct WakeLinkSignal {
    unparker: crossbeam::sync::Unparker,
}

/// Relies on crossbeam::sync::Parker::new: a fresh parker whose token
/// is initially absent.
#[verifier::external_body]
fn new_parker() -> crossbeam::sync::Parker {
    crossbeam::sync::Parker::new()
}

/// Relies on crossbeam::sync::Parker::unparker (and Unparker::clone):
/// an unparker operating on this parker's token.
#[verifier::external_body]
fn unparker_of(parker: &crossbeam::sync::Parker) -> crossbeam::sync::Unparker {
    parker.unparker().clone()
}

/// Builds one Wake Link and returns its two sides: the wait side for
/// the downstream handle and the signal side for the upstream handle.
pub fn wake_link() -> (WakeLinkWait, WakeLinkSignal) {
    let parker = new_parker();
    let unparker = unparker_of(&parker);
    (WakeLinkWait { parker }, WakeLinkSignal { unparker })
}

impl WakeLinkWait {
    /// Relies on crossbeam::sync::Parker::park: blocks the calling
    /// thread until the link's token is available, then consumes the
    /// token. A token made available before this call is consumed
    /// immediately, so a signal that races ahead of the wait is never
    /// lost.
    #[verifier::external_body]
    pub fn wait(&self) {
        self.parker.park()
    }
}

impl WakeLinkSignal {
    /// Relies on crossbeam::sync::Unparker::unpark: makes the link's
    /// token available without blocking; if the wait side is currently
    /// parked it is woken, and repeated signals before one wait
    /// coalesce into a single token.
    #[verifier::external_body]
    pub fn signal(&self) {
        self.unparker.unpark()
    }
}

} // verus!

//! The adapter from a crossbeam channel receiver to the pollable
//! endpoint interface that the biased queue consumes.

use vstd::prelude::*;
use crate::queue::{QueueError, QueueReceiver};

verus! {

#[verifier::external_type_specification]
#[verifier::external_body]
#[verifier::reject_recursive_types(T)]
pub struct ExReceiver<T>(crossbeam::channel::Receiver<T>);

/// Relies on crossbeam::channel::Receiver::try_recv: returns an item
/// if one is ready, reports an empty channel without blocking, and
/// reports a disconnect once all senders are gone and the buffer is
/// drained.
#[verifier::external_body]
fn crossbeam_try_recv<T>(rx: &crossbeam::channel::Receiver<T>) -> Result<Option<T>, QueueError> {
    match rx.try_recv() {
        Ok(v) => Ok(Some(v)),
        Err(crossbeam::channel::TryRecvError::Empty) => Ok(None),
        Err(crossbeam::channel::TryRecvError::Disconnected) => Err(QueueError::Disconnected),
    }
}

/// Relies on crossbeam::channel::Receiver::recv: blocks until an item
/// is ready, or fails once all senders are gone and the buffer is
/// drained; that failure is permanent.
#[verifier::external_body]
fn crossbeam_recv<T>(rx: &crossbeam::channel::Receiver<T>) -> Result<T, QueueError> {
    match rx.recv() {
        Ok(v) => Ok(v),
        Err(crossbeam::channel::RecvError) => Err(QueueError::Disconnected),
    }
}

impl<T> QueueReceiver for crossbeam::channel::Receiver<T> {
    type Item = T;

    fn try_receive(&self) -> Result<Option<T>, QueueError> {
        crossbeam_try_recv(self)
    }

    fn receive(&self) -> Result<T, QueueError> {
        crossbeam_recv(self)
    }
}

} // verus!

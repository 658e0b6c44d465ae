//! Simulated work used by the benchmark harness around this library:
//! two stages of a producer/consumer workload that burn a known amount
//! of CPU through a shared counter the optimizer cannot discard.

use vstd::prelude::*;
use core::sync::atomic::AtomicU64;
use core::sync::atomic::Ordering;

verus! {

/// How many counter increments one unit of the second stage performs.
const WORK_SIZE: u64 = 1_000_000;

/// Simulate one step of the first "serial producer" stage of the
/// workload. Takes long enough that half the worker threads, working
/// together, can just keep up with it.
#[inline(never)]
pub fn work_stage_1(num_worker_threads: u64)
    requires
        num_worker_threads >= 1,
{
    let counter = AtomicU64::new(0);
    let count: u64 = (2 * WORK_SIZE) / num_worker_threads;
    let mut i: u64 = 0;
    while i < count
        invariant
            i <= count,
        decreases count - i,
    {
        counter.fetch_add(1, Ordering::Relaxed);
        i = i + 1;
    }
}

/// Simulate one step of the second "parallel consumer" stage of the
/// workload.
#[inline(never)]
pub fn work_stage_2() {
    let counter = AtomicU64::new(0);
    let mut i: u64 = 0;
    while i < WORK_SIZE
        invariant
            i <= WORK_SIZE,
        decreases WORK_SIZE - i,
    {
        counter.fetch_add(1, Ordering::Relaxed);
        i = i + 1;
    }
}

} // verus!

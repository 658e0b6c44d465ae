//! A work-distribution primitive that sits in front of one shared,
//! unbounded, multi-producer multi-consumer queue and hands out one
//! receiver handle per consumer thread, with a deliberate bias: the
//! lowest-numbered handle is offered work first, and higher-numbered
//! handles are kept parked until a lower-numbered handle demonstrates,
//! by draining a full batch, that it cannot keep up alone.

mod policy;
mod queue;
mod wake_link;
mod endpoint;
mod work;

pub use crate::policy::{DrainEnd, RecvAction, spec_recv_action, recv_action, BATCH_SIZE};
pub use crate::policy::{lemma_empty_disconnect_reported_and_forwarded, lemma_under_capacity_never_wakes, lemma_full_batch_wakes};
pub use crate::queue::{QueueError, QueueReceiver, BiasedWorkQueueReceiver, RecvStep, biased_work_queue};
pub use crate::work::{work_stage_1, work_stage_2};

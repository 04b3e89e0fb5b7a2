//! The delivery queue: pending tasks and the protocol by which workers claim
//! and resolve them.

pub mod protocol;
pub mod store;
pub mod task;

pub use protocol::{claim_granted, claim_run, claimable_keys, granted_count};
pub use store::{ClaimedTask, DeadLetter, DeliveryQueue, QueueError};
pub use task::{
    is_claimable, is_due, is_held, DeliveryTask, QueueView, RowState, TaskKey, TaskView,
};

//! A delivery task and what the queue keeps of it.

use vstd::prelude::*;

verus! {

/// One pending obligation to email one subscriber about one issue.
#[derive(Debug)]
pub struct DeliveryTask {
    /// The issue to deliver.
    pub issue_id: u128,
    /// The address as it was stored; nothing says that it is still valid.
    pub subscriber_email: String,
    /// How many deliveries of the task have failed so far.
    pub retry_count: u32,
    /// The time, in seconds since the epoch, before which the task is not due.
    pub not_before: i64,
}

/// The identity of a task: there is at most one per subscriber and issue.
pub ghost struct TaskKey {
    pub issue_id: u128,
    pub subscriber_email: Seq<char>,
}

/// What the queue keeps of a task beside its identity.
#[derive(Debug, Clone, Copy, PartialEq, Eq, Structural)]
pub struct RowState {
    pub retry_count: u32,
    pub not_before: i64,
    /// Whether a claim on the task is open.
    pub claimed: bool,
}

/// The queue as a mathematical value: what it keeps of each task, by the
/// task's key.
pub type QueueView = Map<TaskKey, RowState>;

/// A task as a mathematical value.
pub ghost struct TaskView {
    pub issue_id: u128,
    pub subscriber_email: Seq<char>,
    pub retry_count: u32,
    pub not_before: i64,
}

impl TaskView {
    /// The identity of the task.
    pub open spec fn key(self) -> TaskKey {
        TaskKey { issue_id: self.issue_id, subscriber_email: self.subscriber_email }
    }
}

impl View for DeliveryTask {
    type V = TaskView;

    open spec fn view(&self) -> TaskView {
        TaskView {
            issue_id: self.issue_id,
            subscriber_email: self.subscriber_email@,
            retry_count: self.retry_count,
            not_before: self.not_before,
        }
    }
}

impl DeliveryTask {
    /// Whether the task has retries left and its time has come.
    pub fn is_due(&self, max_retries: u32, now: i64) -> (due: bool)
        ensures
            due == is_due(
                RowState {
                    retry_count: self.retry_count,
                    not_before: self.not_before,
                    claimed: false,
                },
                max_retries,
                now,
            ),
    {
        self.retry_count < max_retries && self.not_before <= now
    }

    /// A copy of the task.
    pub fn duplicate(&self) -> (copy: DeliveryTask)
        ensures
            copy@ == self@,
    {
        DeliveryTask {
            issue_id: self.issue_id,
            subscriber_email: self.subscriber_email.clone(),
            retry_count: self.retry_count,
            not_before: self.not_before,
        }
    }
}

/// A task is due when it has retries left and its time has come.
pub open spec fn is_due(row: RowState, max_retries: u32, now: i64) -> bool {
    row.retry_count < max_retries && row.not_before <= now
}

/// A task can be claimed when it is due and no claim on it is open.
pub open spec fn is_claimable(row: RowState, max_retries: u32, now: i64) -> bool {
    !row.claimed && is_due(row, max_retries, now)
}

/// Whether an open claim on the task with key `k` is recorded in `queue`.
pub open spec fn is_held(queue: QueueView, k: TaskKey) -> bool {
    queue.contains_key(k) && queue[k].claimed
}

} // verus!

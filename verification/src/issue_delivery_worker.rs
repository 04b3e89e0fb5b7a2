//! One delivery from end to end, with everything in memory: a worker is run
//! against a queue, with the issues at hand and the mail gateway's answer
//! given. The contract states what the worker and the queue achieve
//! together.

use crate::domain::subscriber_email::email_grammar_accepts;
use crate::queue::store::DeliveryQueue;
use crate::queue::task::{is_claimable, DeliveryTask, QueueView, RowState, TaskKey, TaskView};
use crate::worker::machine::Worker;
use crate::worker::model::{
    Action, Completion, Event, Issue, IssueView, Outcome, WorkerConfig,
};
use vstd::pervasive::unreached;
use vstd::prelude::*;

verus! {

/// The first of `issues` with the identifier `id`, if there is one.
pub open spec fn issue_with_id(issues: Seq<Issue>, id: u128) -> Option<IssueView>
    decreases issues.len(),
{
    if issues.len() == 0 {
        None
    } else if issues[0].id == id {
        Some(issues[0]@)
    } else {
        issue_with_id(issues.drop_first(), id)
    }
}

proof fn lemma_issue_with_id(issues: Seq<Issue>, id: u128, i: int)
    requires
        0 <= i <= issues.len(),
        forall|j: int| 0 <= j < i ==> (#[trigger] issues[j]).id != id,
    ensures
        i < issues.len() && issues[i].id == id ==> issue_with_id(issues, id) == Some(issues[i]@),
        i == issues.len() ==> issue_with_id(issues, id) is None,
    decreases issues.len(),
{
    if issues.len() > 0 && i > 0 {
        let rest = issues.drop_first();
        assert(issues[0].id != id);
        assert forall|j: int| 0 <= j < i - 1 implies (#[trigger] rest[j]).id != id by {
            assert(rest[j] == issues[j + 1]);
        }
        lemma_issue_with_id(rest, id, i - 1);
        if i < issues.len() {
            assert(rest[i - 1] == issues[i]);
        }
    }
}

/// Looks an issue up by its identifier.
pub fn get_issue(issues: &Vec<Issue>, issue_id: u128) -> (found: Option<Issue>)
    ensures
        match found {
            Some(issue) => issue_with_id(issues@, issue_id) == Some(issue@) && issue.id == issue_id,
            None => issue_with_id(issues@, issue_id) is None,
        },
{
    let mut i: usize = 0;
    while i < issues.len()
        invariant
            i <= issues.len(),
            forall|j: int| 0 <= j < i ==> (#[trigger] issues@[j]).id != issue_id,
        decreases issues.len() - i,
    {
        if issues[i].id == issue_id {
            proof {
                lemma_issue_with_id(issues@, issue_id, i as int);
            }
            return Some(issues[i].duplicate());
        }
        i += 1;
    }
    proof {
        lemma_issue_with_id(issues@, issue_id, i as int);
    }
    None
}

/// How the delivery of a claimed task ends: skipped if its address is
/// invalid, abandoned if its issue is missing, delivered if the gateway
/// accepts the email; and if not, dropped where the failure is the last
/// that the task is allowed, deferred otherwise.
pub open spec fn expected_outcome(
    config: WorkerConfig,
    task: TaskView,
    issue_found: bool,
    gateway_accepts: bool,
) -> Outcome {
    if !email_grammar_accepts(task.subscriber_email) {
        Outcome::Skipped
    } else if !issue_found {
        Outcome::Abandoned
    } else if gateway_accepts {
        Outcome::Delivered
    } else if task.retry_count + 1 >= config.max_retries {
        Outcome::DeadLettered
    } else {
        Outcome::Deferred
    }
}

/// What the queue keeps of `task` once a delivery that failed at `now` is
/// deferred: one more failure, and the time that lies the backoff after
/// `now`.
pub open spec fn deferred(config: WorkerConfig, task: TaskView, now: i64) -> RowState
    recommends
        task.retry_count + 1 < config.max_retries,
        now + config.backoff_seconds <= i64::MAX,
{
    RowState {
        retry_count: (task.retry_count + 1) as u32,
        not_before: (now + config.backoff_seconds) as i64,
        claimed: false,
    }
}

/// The queue after the delivery of `task` has ended in `outcome` at `now`,
/// where `queue` is the queue before the task was claimed: without the task
/// where it was delivered, skipped or dropped, with the task deferred where
/// it is to be retried, and unchanged where the claim was given up.
pub open spec fn queue_after(
    queue: QueueView,
    config: WorkerConfig,
    task: TaskView,
    outcome: Outcome,
    now: i64,
) -> QueueView {
    match outcome {
        Outcome::Delivered | Outcome::Skipped | Outcome::DeadLettered => queue.remove(task.key()),
        Outcome::Deferred => queue.insert(task.key(), deferred(config, task, now)),
        Outcome::Abandoned => queue,
    }
}

/// What an attempt to execute a task came to.
#[derive(Debug)]
pub enum ExecutionOutcome {
    /// A task was claimed and resolved, with this outcome.
    TaskCompleted { task: DeliveryTask, outcome: Outcome },
    /// There was no task to claim.
    EmptyQueue,
}

/// Why a claimed task was left unresolved.
#[derive(Debug)]
pub enum ExecutionError {
    /// The task refers to an issue that does not exist. The claim was given
    /// up, and the task is in the queue as before.
    IssueMissing { task: DeliveryTask },
}

/// Claims one task that is due at `now` and carries its delivery through
/// to the resolution: validates the stored address, looks the issue up in
/// `issues`, sends the email where `gateway_accepts` says that the gateway
/// takes it, and resolves the claim by the outcome. A worker with `config`
/// decides every step. With `max_retries` at 0 no task can be claimed.
pub fn try_execute_task(
    queue: &mut DeliveryQueue,
    config: WorkerConfig,
    issues: &Vec<Issue>,
    gateway_accepts: bool,
    now: i64,
) -> (res: Result<ExecutionOutcome, ExecutionError>)
    requires
        now + config.backoff_seconds <= i64::MAX,
    ensures
        match res {
            Ok(ExecutionOutcome::EmptyQueue) => {
                &&& forall|k: TaskKey| #[trigger]
                    old(queue)@.contains_key(k) ==> !is_claimable(
                        old(queue)@[k],
                        config.max_retries,
                        now,
                    )
                &&& final(queue)@ == old(queue)@
            },
            Ok(ExecutionOutcome::TaskCompleted { task, outcome }) => {
                &&& old(queue)@.contains_key(task@.key())
                &&& is_claimable(old(queue)@[task@.key()], config.max_retries, now)
                &&& task@.retry_count == old(queue)@[task@.key()].retry_count
                &&& task@.not_before == old(queue)@[task@.key()].not_before
                &&& outcome != Outcome::Abandoned
                &&& outcome == expected_outcome(
                    config,
                    task@,
                    issue_with_id(issues@, task.issue_id) is Some,
                    gateway_accepts,
                )
                &&& final(queue)@ == queue_after(old(queue)@, config, task@, outcome, now)
                &&& outcome == Outcome::Deferred ==> {
                    &&& final(queue)@[task@.key()].retry_count == task@.retry_count + 1
                    &&& final(queue)@[task@.key()].not_before == now + config.backoff_seconds
                }
            },
            Err(ExecutionError::IssueMissing { task }) => {
                &&& old(queue)@.contains_key(task@.key())
                &&& is_claimable(old(queue)@[task@.key()], config.max_retries, now)
                &&& email_grammar_accepts(task@.subscriber_email)
                &&& issue_with_id(issues@, task.issue_id) is None
                &&& final(queue)@ == old(queue)@
            },
        },
{
    let mut worker = match Worker::new(config) {
        Some(worker) => worker,
        // Without a retry to spend no task can be claimed.
        None => {
            return Ok(ExecutionOutcome::EmptyQueue);
        },
    };
    let max_retries = match worker.step(Event::Woke) {
        Ok(Action::Claim { max_retries }) => max_retries,
        _ => unreached(),
    };
    let claim = match queue.claim_one(max_retries, now) {
        Some(claim) => claim,
        None => {
            let _ = worker.step(Event::QueueEmpty);
            return Ok(ExecutionOutcome::EmptyQueue);
        },
    };
    let ghost claimed = queue@;
    let ghost k = claim@.key();
    let task = claim.task();

    // The worker decides; each of its actions is performed on what is at
    // hand, and what came of it is reported back.
    let action = worker.step(Event::Claimed(claim.task()));
    let action = match action {
        Ok(Action::LoadIssue { issue_id }) => match get_issue(issues, issue_id) {
            Some(issue) => worker.step(Event::IssueFound(issue)),
            None => worker.step(Event::IssueMissing),
        },
        other => other,
    };
    let action = match action {
        Ok(Action::Send { .. }) => if gateway_accepts {
            worker.step(Event::Sent)
        } else {
            worker.step(Event::SendFailed { now })
        },
        other => other,
    };
    let outcome = match action {
        Ok(Action::Complete { reason: Completion::Delivered }) => {
            let _ = claim.complete(queue);
            Outcome::Delivered
        },
        Ok(Action::Complete { reason: Completion::InvalidEmail(_) }) => {
            let _ = claim.complete(queue);
            Outcome::Skipped
        },
        Ok(Action::Defer { retry_count, not_before }) => {
            let _ = claim.defer(queue, retry_count, not_before);
            Outcome::Deferred
        },
        Ok(Action::ExhaustAndDrop) => {
            let _ = claim.exhaust_and_drop(queue);
            Outcome::DeadLettered
        },
        Ok(Action::Abandon) => {
            let _ = claim.abandon(queue);
            Outcome::Abandoned
        },
        _ => unreached(),
    };
    let _ = worker.step(Event::Resolved);
    proof {
        assert(claimed.remove(k) =~= old(queue)@.remove(k));
        assert(claimed.insert(k, RowState { claimed: false, ..claimed[k] }) =~= old(queue)@);
        assert(claimed.insert(k, deferred(config, task@, now)) =~= old(queue)@.insert(
            k,
            deferred(config, task@, now),
        ));
    }
    match outcome {
        Outcome::Abandoned => Err(ExecutionError::IssueMissing { task }),
        _ => Ok(ExecutionOutcome::TaskCompleted { task, outcome }),
    }
}

/// No task is lost: a delivery takes its task out of the queue only where
/// the gateway accepted the email, the stored address is invalid, or the
/// failure was the last that the task was allowed; and it touches no other
/// task.
pub proof fn law_no_task_is_lost(
    queue: QueueView,
    config: WorkerConfig,
    task: TaskView,
    issue_found: bool,
    gateway_accepts: bool,
    now: i64,
    other: TaskKey,
)
    requires
        queue.contains_key(task.key()),
    ensures
        ({
            let outcome = expected_outcome(config, task, issue_found, gateway_accepts);
            let after = queue_after(queue, config, task, outcome, now);
            &&& !after.contains_key(task.key()) ==> {
                ||| !email_grammar_accepts(task.subscriber_email)
                ||| (issue_found && gateway_accepts)
                ||| (issue_found && task.retry_count + 1 >= config.max_retries)
            }
            &&& other != task.key() ==> {
                &&& after.contains_key(other) == queue.contains_key(other)
                &&& queue.contains_key(other) ==> after[other] == queue[other]
            }
        }),
{
}

/// The retries of a task are bounded: each deferral counts one more
/// failure, and the count stays below `max_retries`, at which the task
/// would be dropped.
pub proof fn law_deferral_counts_up(
    config: WorkerConfig,
    task: TaskView,
    issue_found: bool,
    gateway_accepts: bool,
    now: i64,
)
    requires
        expected_outcome(config, task, issue_found, gateway_accepts) == Outcome::Deferred,
    ensures
        deferred(config, task, now).retry_count == task.retry_count + 1,
        deferred(config, task, now).retry_count < config.max_retries,
        !deferred(config, task, now).claimed,
{
}

} // verus!

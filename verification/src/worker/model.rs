//! The worker's states, events and actions, and its transition function.

use crate::domain::subscriber_email::{email_grammar_accepts, SubscriberEmail};
use crate::domain::validation_error::{Rule, ValidationError, ValidationErrorView, ValueKind};
use crate::queue::task::{DeliveryTask, TaskView};
use vstd::prelude::*;

verus! {

/// What the host supplies to a worker.
#[derive(Debug, Clone, Copy, PartialEq, Eq, Structural)]
pub struct WorkerConfig {
    /// The failed deliveries at which a task is given up; at least 1.
    pub max_retries: u32,
    /// The seconds to wait before a failed delivery is tried again.
    pub backoff_seconds: u32,
    /// The seconds to sleep after the queue had nothing to claim.
    pub idle_seconds: u32,
    /// The seconds to sleep after storage failed or an issue was missing.
    pub error_seconds: u32,
}

/// The content of a newsletter issue, as the issue store holds it.
#[derive(Debug)]
pub struct Issue {
    pub id: u128,
    pub title: String,
    pub html_body: String,
    pub text_body: String,
}

/// An issue as a mathematical value.
pub ghost struct IssueView {
    pub id: u128,
    pub title: Seq<char>,
    pub html_body: Seq<char>,
    pub text_body: Seq<char>,
}

impl View for Issue {
    type V = IssueView;

    open spec fn view(&self) -> IssueView {
        IssueView {
            id: self.id,
            title: self.title@,
            html_body: self.html_body@,
            text_body: self.text_body@,
        }
    }
}

impl Issue {
    /// A copy of the issue.
    pub fn duplicate(&self) -> (copy: Issue)
        ensures
            copy@ == self@,
    {
        Issue {
            id: self.id,
            title: self.title.clone(),
            html_body: self.html_body.clone(),
            text_body: self.text_body.clone(),
        }
    }
}

/// The outcome of the outside work that the worker asked for last.
#[derive(Debug)]
pub enum Event {
    /// The worker was started, or a sleep is over.
    Woke,
    /// The claim attempt was granted the task that the event holds.
    Claimed(DeliveryTask),
    /// The claim attempt found nothing to claim.
    QueueEmpty,
    /// Storage could not be reached or refused the operation.
    StorageFailed,
    /// The issue store has the issue.
    IssueFound(Issue),
    /// The issue store has no issue with the identifier asked for.
    IssueMissing,
    /// The mail gateway accepted the email.
    Sent,
    /// The mail gateway failed or timed out; `now` is the time, in seconds
    /// since the epoch, at which that was seen.
    SendFailed { now: i64 },
    /// The resolution was committed.
    Resolved,
}

/// An event as a mathematical value.
pub ghost enum EventView {
    Woke,
    Claimed(TaskView),
    QueueEmpty,
    StorageFailed,
    IssueFound(IssueView),
    IssueMissing,
    Sent,
    SendFailed { now: i64 },
    Resolved,
}

impl View for Event {
    type V = EventView;

    open spec fn view(&self) -> EventView {
        match *self {
            Event::Woke => EventView::Woke,
            Event::Claimed(task) => EventView::Claimed(task@),
            Event::QueueEmpty => EventView::QueueEmpty,
            Event::StorageFailed => EventView::StorageFailed,
            Event::IssueFound(issue) => EventView::IssueFound(issue@),
            Event::IssueMissing => EventView::IssueMissing,
            Event::Sent => EventView::Sent,
            Event::SendFailed { now } => EventView::SendFailed { now },
            Event::Resolved => EventView::Resolved,
        }
    }
}

/// Why a task is completed.
#[derive(Debug)]
pub enum Completion {
    /// The email was delivered.
    Delivered,
    /// The stored address is not an email address: the task can never
    /// succeed and is skipped for good. The error is for the log.
    InvalidEmail(ValidationError),
}

/// A completion as a mathematical value.
pub ghost enum CompletionView {
    Delivered,
    InvalidEmail(ValidationErrorView),
}

/// The error that tells that `address` is no email address.
pub open spec fn not_an_address(address: Seq<char>) -> ValidationErrorView {
    ValidationErrorView { kind: ValueKind::Email, rule: Rule::NotAnAddress, input: Some(address) }
}

impl View for Completion {
    type V = CompletionView;

    open spec fn view(&self) -> CompletionView {
        match *self {
            Completion::Delivered => CompletionView::Delivered,
            Completion::InvalidEmail(e) => CompletionView::InvalidEmail(e@),
        }
    }
}

/// The outside work that the worker asks for.
#[derive(Debug)]
pub enum Action {
    /// Attempt to claim one task with fewer than `max_retries` failures.
    Claim { max_retries: u32 },
    /// Sleep, then report `Woke`.
    Sleep { seconds: u32 },
    /// Look the issue up in the issue store.
    LoadIssue { issue_id: u128 },
    /// Send the issue to the subscriber through the mail gateway.
    Send { recipient: SubscriberEmail, subject: String, html_body: String, text_body: String },
    /// Resolve the claim by `complete`.
    Complete { reason: Completion },
    /// Resolve the claim by `defer` with these values.
    Defer { retry_count: u32, not_before: i64 },
    /// Resolve the claim by `exhaust_and_drop`.
    ExhaustAndDrop,
    /// Give the claim up unresolved.
    Abandon,
    /// Leave the loop: the worker has stopped.
    Stop,
}

/// An action as a mathematical value.
pub ghost enum ActionView {
    Claim { max_retries: u32 },
    Sleep { seconds: u32 },
    LoadIssue { issue_id: u128 },
    Send { recipient: Seq<char>, subject: Seq<char>, html_body: Seq<char>, text_body: Seq<char> },
    Complete { reason: CompletionView },
    Defer { retry_count: int, not_before: int },
    ExhaustAndDrop,
    Abandon,
    Stop,
}

impl View for Action {
    type V = ActionView;

    open spec fn view(&self) -> ActionView {
        match *self {
            Action::Claim { max_retries } => ActionView::Claim { max_retries },
            Action::Sleep { seconds } => ActionView::Sleep { seconds },
            Action::LoadIssue { issue_id } => ActionView::LoadIssue { issue_id },
            Action::Send { recipient, subject, html_body, text_body } => ActionView::Send {
                recipient: recipient@,
                subject: subject@,
                html_body: html_body@,
                text_body: text_body@,
            },
            Action::Complete { reason } => ActionView::Complete { reason: reason@ },
            Action::Defer { retry_count, not_before } => ActionView::Defer {
                retry_count: retry_count as int,
                not_before: not_before as int,
            },
            Action::ExhaustAndDrop => ActionView::ExhaustAndDrop,
            Action::Abandon => ActionView::Abandon,
            Action::Stop => ActionView::Stop,
        }
    }
}

/// How the claim in flight is being resolved.
#[derive(Debug, Clone, Copy, PartialEq, Eq, Structural)]
pub enum Outcome {
    /// Completed after a delivery.
    Delivered,
    /// Completed unsent: the stored address is invalid.
    Skipped,
    /// Deferred after a failed delivery.
    Deferred,
    /// Dropped after the last failed delivery.
    DeadLettered,
    /// Given up unresolved: the issue could not be had.
    Abandoned,
}

/// Where the worker stands: what it has asked for and is waiting on.
#[derive(Debug)]
pub enum Phase {
    /// Nothing is in flight; the worker waits to be woken.
    Idle,
    /// A claim attempt is in flight.
    Claiming,
    /// A task is claimed and its issue is being looked up.
    LoadingIssue { task: DeliveryTask, recipient: SubscriberEmail },
    /// A task is claimed and its email is being sent.
    Sending { task: DeliveryTask },
    /// A task is claimed and its resolution is being committed.
    Resolving { outcome: Outcome },
    /// The worker has stopped and takes no more events.
    Stopped,
}

/// A phase as a mathematical value.
pub ghost enum PhaseView {
    Idle,
    Claiming,
    LoadingIssue { task: TaskView },
    Sending { task: TaskView },
    Resolving { outcome: Outcome },
    Stopped,
}

impl View for Phase {
    type V = PhaseView;

    open spec fn view(&self) -> PhaseView {
        match *self {
            Phase::Idle => PhaseView::Idle,
            Phase::Claiming => PhaseView::Claiming,
            Phase::LoadingIssue { task, recipient } => PhaseView::LoadingIssue { task: task@ },
            Phase::Sending { task } => PhaseView::Sending { task: task@ },
            Phase::Resolving { outcome } => PhaseView::Resolving { outcome },
            Phase::Stopped => PhaseView::Stopped,
        }
    }
}

/// A worker as a mathematical value.
pub ghost struct WorkerView {
    pub config: WorkerConfig,
    pub phase: PhaseView,
    /// Whether the host has asked the worker to stop.
    pub stop_requested: bool,
}

impl WorkerView {
    /// The worker in another phase.
    pub open spec fn at(self, phase: PhaseView) -> WorkerView {
        WorkerView { phase, ..self }
    }
}

/// Whether a claim is open in this phase.
pub open spec fn holds_claim(phase: PhaseView) -> bool {
    phase is LoadingIssue || phase is Sending || phase is Resolving
}

/// The step at the boundary between two iterations, the one place where a
/// request to stop is honoured: stop if asked to, else attempt a claim.
pub open spec fn next_iteration(w: WorkerView) -> (WorkerView, ActionView) {
    if w.stop_requested {
        (w.at(PhaseView::Stopped), ActionView::Stop)
    } else {
        (w.at(PhaseView::Claiming), ActionView::Claim { max_retries: w.config.max_retries })
    }
}

/// The resolution of a task whose delivery failed at `now`: with its
/// retries used up it is dropped, else it is deferred by the backoff with
/// one more failure counted.
pub open spec fn after_failed_send(config: WorkerConfig, task: TaskView, now: i64) -> (
    Outcome,
    ActionView,
) {
    if task.retry_count + 1 >= config.max_retries {
        (Outcome::DeadLettered, ActionView::ExhaustAndDrop)
    } else {
        (
            Outcome::Deferred,
            ActionView::Defer {
                retry_count: task.retry_count + 1,
                not_before: now + config.backoff_seconds,
            },
        )
    }
}

/// The worker's transition function: the next state and the action for
/// each event that the worker expects in its phase; `None` for an event
/// that it does not expect there.
pub open spec fn transition(w: WorkerView, event: EventView) -> Option<(WorkerView, ActionView)> {
    match (w.phase, event) {
        (PhaseView::Idle, EventView::Woke) => Some(next_iteration(w)),
        (PhaseView::Claiming, EventView::Claimed(task)) => Some(
            if email_grammar_accepts(task.subscriber_email) {
                (
                    w.at(PhaseView::LoadingIssue { task }),
                    ActionView::LoadIssue { issue_id: task.issue_id },
                )
            } else {
                (
                    w.at(PhaseView::Resolving { outcome: Outcome::Skipped }),
                    ActionView::Complete {
                        reason: CompletionView::InvalidEmail(not_an_address(task.subscriber_email)),
                    },
                )
            },
        ),
        (PhaseView::Claiming, EventView::QueueEmpty) => Some(
            (w.at(PhaseView::Idle), ActionView::Sleep { seconds: w.config.idle_seconds }),
        ),
        (PhaseView::Claiming, EventView::StorageFailed) => Some(
            (w.at(PhaseView::Idle), ActionView::Sleep { seconds: w.config.error_seconds }),
        ),
        (PhaseView::LoadingIssue { task }, EventView::IssueFound(issue)) => if issue.id
            == task.issue_id {
            Some(
                (
                    w.at(PhaseView::Sending { task }),
                    ActionView::Send {
                        recipient: task.subscriber_email,
                        subject: issue.title,
                        html_body: issue.html_body,
                        text_body: issue.text_body,
                    },
                ),
            )
        } else {
            None
        },
        (PhaseView::LoadingIssue { task }, EventView::IssueMissing) => Some(
            (w.at(PhaseView::Resolving { outcome: Outcome::Abandoned }), ActionView::Abandon),
        ),
        (PhaseView::LoadingIssue { task }, EventView::StorageFailed) => Some(
            (w.at(PhaseView::Resolving { outcome: Outcome::Abandoned }), ActionView::Abandon),
        ),
        (PhaseView::Sending { task }, EventView::Sent) => Some(
            (
                w.at(PhaseView::Resolving { outcome: Outcome::Delivered }),
                ActionView::Complete { reason: CompletionView::Delivered },
            ),
        ),
        (PhaseView::Sending { task }, EventView::SendFailed { now }) => {
            let (outcome, action) = after_failed_send(w.config, task, now);
            Some((w.at(PhaseView::Resolving { outcome }), action))
        },
        (PhaseView::Resolving { outcome }, EventView::Resolved) => Some(
            if outcome == Outcome::Abandoned {
                (w.at(PhaseView::Idle), ActionView::Sleep { seconds: w.config.error_seconds })
            } else {
                next_iteration(w)
            },
        ),
        (PhaseView::Resolving { outcome }, EventView::StorageFailed) => Some(
            (w.at(PhaseView::Idle), ActionView::Sleep { seconds: w.config.error_seconds }),
        ),
        _ => None,
    }
}

/// Whether the time that a failed send reports leaves room for the backoff.
pub open spec fn backoff_fits(config: WorkerConfig, event: EventView) -> bool {
    event matches EventView::SendFailed { now } ==> now + config.backoff_seconds <= i64::MAX
}

} // verus!

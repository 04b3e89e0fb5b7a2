//! What the transition function guarantees of every worker.

use crate::domain::subscriber_email::email_grammar_accepts;
use crate::queue::task::TaskView;
use crate::worker::model::{
    holds_claim, not_an_address, transition, ActionView, CompletionView, EventView, IssueView,
    Outcome, PhaseView, WorkerView,
};
use vstd::prelude::*;

verus! {

/// A task whose stored address is not an email address is completed at
/// once: no issue is looked up, nothing is sent, no retry is counted or
/// scheduled, and the next action after its resolution starts or ends an
/// iteration.
pub proof fn law_invalid_email_is_skipped_unsent(w: WorkerView, task: TaskView, later: EventView)
    requires
        w.phase is Claiming,
    ensures
        !email_grammar_accepts(task.subscriber_email) ==> {
            let skipping = w.at(PhaseView::Resolving { outcome: Outcome::Skipped });
            &&& transition(w, EventView::Claimed(task)) == Some(
                (
                    skipping,
                    ActionView::Complete {
                        reason: CompletionView::InvalidEmail(not_an_address(task.subscriber_email)),
                    },
                ),
            )
            &&& transition(skipping, later) matches Some((_, action)) ==> {
                ||| action is Claim
                ||| action is Stop
                ||| action is Sleep
            }
        },
{
}

/// A task with a valid address goes through lookup and send: the email is
/// sent to the stored address with the issue's title and bodies, and a
/// delivery completes the task.
pub proof fn law_valid_task_is_sent_then_completed(w: WorkerView, task: TaskView, issue: IssueView)
    requires
        w.phase is Claiming,
        issue.id == task.issue_id,
    ensures
        email_grammar_accepts(task.subscriber_email) ==> {
            let (loading, first) = transition(w, EventView::Claimed(task))->0;
            let (sending, second) = transition(loading, EventView::IssueFound(issue))->0;
            let (resolving, third) = transition(sending, EventView::Sent)->0;
            &&& first == ActionView::LoadIssue { issue_id: task.issue_id }
            &&& second == ActionView::Send {
                recipient: task.subscriber_email,
                subject: issue.title,
                html_body: issue.html_body,
                text_body: issue.text_body,
            }
            &&& third == ActionView::Complete { reason: CompletionView::Delivered }
            &&& resolving.phase == PhaseView::Resolving { outcome: Outcome::Delivered }
        },
{
}

/// A failed delivery is resolved by the count of failures: the task is
/// dropped where one more failure reaches `max_retries`, and is otherwise
/// kept with one more failure counted and due again after the backoff.
pub proof fn law_failed_send_is_deferred_or_dropped(w: WorkerView, task: TaskView, now: i64)
    requires
        w.phase == (PhaseView::Sending { task }),
        now + w.config.backoff_seconds <= i64::MAX,
    ensures
        task.retry_count + 1 >= w.config.max_retries ==> transition(
            w,
            EventView::SendFailed { now },
        ) == Some(
            (
                w.at(PhaseView::Resolving { outcome: Outcome::DeadLettered }),
                ActionView::ExhaustAndDrop,
            ),
        ),
        task.retry_count + 1 < w.config.max_retries ==> ({
            let (next, action) = transition(w, EventView::SendFailed { now })->0;
            &&& next == w.at(PhaseView::Resolving { outcome: Outcome::Deferred })
            &&& action == ActionView::Defer {
                retry_count: task.retry_count + 1,
                not_before: now + w.config.backoff_seconds,
            }
        }),
{
}

/// A missing issue never drops the task: the claim is given up unresolved,
/// and the worker sleeps the error interval before it goes on.
pub proof fn law_missing_issue_abandons_the_claim(w: WorkerView, task: TaskView)
    requires
        w.phase == (PhaseView::LoadingIssue { task }),
    ensures
        transition(w, EventView::IssueMissing) == Some(
            (w.at(PhaseView::Resolving { outcome: Outcome::Abandoned }), ActionView::Abandon),
        ),
        transition(
            w.at(PhaseView::Resolving { outcome: Outcome::Abandoned }),
            EventView::Resolved,
        ) == Some((w.at(PhaseView::Idle), ActionView::Sleep { seconds: w.config.error_seconds })),
{
}

/// A request to stop is honoured between iterations only: the worker stops
/// only if it was asked to and only with no claim open, and while it holds a
/// claim the only event that can make it stop is the claim's resolution.
pub proof fn law_stop_waits_for_the_boundary(w: WorkerView, event: EventView)
    requires
        transition(w, event) matches Some((_, ActionView::Stop)),
    ensures
        w.stop_requested,
        (transition(w, event)->0).0.phase is Stopped,
        holds_claim(w.phase) ==> (w.phase is Resolving && event is Resolved),
{
}

/// A worker holds one claim at a time, and each claim is resolved: a claim
/// is attempted only from a phase without a claim or on the resolution of
/// the one before, and from a phase with a claim every step either goes on
/// with the task or asks for a resolution of the claim.
pub proof fn law_every_claim_is_resolved(w: WorkerView, event: EventView)
    requires
        transition(w, event) is Some,
    ensures
        ({
            let (next, action) = transition(w, event)->0;
            &&& action is Claim ==> {
                ||| !holds_claim(w.phase)
                ||| (w.phase is Resolving && event is Resolved)
            }
            &&& w.phase is LoadingIssue ==> {
                ||| (next.phase is Sending && action is Send)
                ||| (next.phase is Resolving && action is Abandon)
            }
            &&& w.phase is Sending ==> {
                &&& next.phase is Resolving
                &&& action is Complete || action is Defer || action is ExhaustAndDrop
            }
            &&& w.phase is Resolving ==> !holds_claim(next.phase)
            &&& next.config == w.config
            &&& next.stop_requested == w.stop_requested
        }),
{
}

/// A stopped worker takes no event.
pub proof fn law_stopped_is_final(w: WorkerView, event: EventView)
    requires
        w.phase is Stopped,
    ensures
        transition(w, event) is None,
{
}

} // verus!

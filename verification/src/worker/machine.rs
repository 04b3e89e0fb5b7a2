//! The worker that takes events and answers with actions.

use crate::domain::subscriber_email::SubscriberEmail;
use crate::worker::model::{
    backoff_fits, holds_claim, next_iteration, transition, Action, ActionView, Completion, Event,
    Outcome, Phase, PhaseView, WorkerConfig, WorkerView,
};
use vstd::prelude::*;

verus! {

/// Why a worker refused an event.
#[derive(Debug, Clone, Copy, PartialEq, Eq, Structural)]
pub enum WorkerError {
    /// The event is none that the worker expects in its phase.
    UnexpectedEvent,
}

/// One delivery worker. Any number of them may run against one queue.
#[derive(Debug)]
pub struct Worker {
    config: WorkerConfig,
    phase: Phase,
    stop_requested: bool,
}

impl View for Worker {
    type V = WorkerView;

    closed spec fn view(&self) -> WorkerView {
        WorkerView {
            config: self.config,
            phase: self.phase@,
            stop_requested: self.stop_requested,
        }
    }
}

impl Worker {
    /// The limit of retries is positive, and the address that is kept for
    /// the send is the one that the claimed task stores.
    #[verifier::type_invariant]
    spec fn well_formed(self) -> bool {
        &&& self.config.max_retries >= 1
        &&& self.phase matches Phase::LoadingIssue { task, recipient } ==> recipient@
            == task.subscriber_email@
    }

    /// An idle worker, which expects to be woken; none where `max_retries`
    /// is 0.
    pub fn new(config: WorkerConfig) -> (worker: Option<Worker>)
        ensures
            worker is Some <==> config.max_retries >= 1,
            worker matches Some(w) ==> w@ == (WorkerView {
                config,
                phase: PhaseView::Idle,
                stop_requested: false,
            }),
    {
        if config.max_retries >= 1 {
            Some(Worker { config, phase: Phase::Idle, stop_requested: false })
        } else {
            None
        }
    }

    /// Asks the worker to stop. It does so at the next boundary between two
    /// iterations; a task that it has claimed is resolved first.
    pub fn request_stop(&mut self)
        ensures
            final(self)@ == (WorkerView { stop_requested: true, ..old(self)@ }),
    {
        proof {
            use_type_invariant(&*self);
        }
        self.stop_requested = true;
    }

    /// What the host supplied.
    pub fn config(&self) -> (config: WorkerConfig)
        ensures
            config == self@.config,
            config.max_retries >= 1,
    {
        proof {
            use_type_invariant(self);
        }
        self.config
    }

    /// Where the worker stands.
    pub fn phase(&self) -> (phase: &Phase)
        ensures
            phase@ == self@.phase,
    {
        &self.phase
    }

    /// Whether the host has asked the worker to stop.
    pub fn stop_requested(&self) -> (asked: bool)
        ensures
            asked == self@.stop_requested,
    {
        self.stop_requested
    }

    /// Whether the worker has stopped.
    pub fn is_stopped(&self) -> (stopped: bool)
        ensures
            stopped == (self@.phase is Stopped),
    {
        match self.phase {
            Phase::Stopped => true,
            _ => false,
        }
    }

    /// Whether the worker holds a claim that is not resolved yet.
    pub fn holds_claim(&self) -> (held: bool)
        ensures
            held == holds_claim(self@.phase),
    {
        match self.phase {
            Phase::LoadingIssue { .. } => true,
            Phase::Sending { .. } => true,
            Phase::Resolving { .. } => true,
            _ => false,
        }
    }

    /// Takes the phase out and leaves the worker idle until one is put back.
    fn take_phase(&mut self) -> (phase: Phase)
        ensures
            phase == old(self).phase,
            final(self).phase == Phase::Idle,
            final(self).config == old(self).config,
            final(self).stop_requested == old(self).stop_requested,
    {
        proof {
            use_type_invariant(&*self);
        }
        let mut phase = Phase::Idle;
        core::mem::swap(&mut self.phase, &mut phase);
        phase
    }

    /// Starts the next iteration, or stops if asked to.
    fn begin_iteration(&mut self) -> (action: Action)
        ensures
            (final(self)@, action@) == next_iteration(old(self)@),
    {
        proof {
            use_type_invariant(&*self);
        }
        if self.stop_requested {
            self.phase = Phase::Stopped;
            Action::Stop
        } else {
            self.phase = Phase::Claiming;
            Action::Claim { max_retries: self.config.max_retries }
        }
    }

    /// Goes to sleep for `seconds`.
    fn pause(&mut self, seconds: u32) -> (action: Action)
        ensures
            final(self)@ == old(self)@.at(PhaseView::Idle),
            action@ == (ActionView::Sleep { seconds }),
    {
        proof {
            use_type_invariant(&*self);
        }
        self.phase = Phase::Idle;
        Action::Sleep { seconds }
    }

    /// Starts to resolve the claim in flight.
    fn resolve(&mut self, outcome: Outcome, action: Action) -> (same: Action)
        ensures
            final(self)@ == old(self)@.at(PhaseView::Resolving { outcome }),
            same == action,
    {
        proof {
            use_type_invariant(&*self);
        }
        self.phase = Phase::Resolving { outcome };
        action
    }

    /// Takes the outcome of the action that the worker asked for last and
    /// answers with the action to take next, as `transition` lays down. An
    /// event that the worker does not expect in its phase is refused and
    /// changes nothing.
    pub fn step(&mut self, event: Event) -> (res: Result<Action, WorkerError>)
        requires
            backoff_fits(old(self)@.config, event@),
        ensures
            match transition(old(self)@, event@) {
                Some((next, action)) => {
                    &&& final(self)@ == next
                    &&& res matches Ok(a) && a@ == action
                },
                None => {
                    &&& final(self)@ == old(self)@
                    &&& res == Err::<Action, WorkerError>(WorkerError::UnexpectedEvent)
                },
            },
    {
        proof {
            use_type_invariant(&*self);
        }
        let phase = self.take_phase();
        match (phase, event) {
            (Phase::Idle, Event::Woke) => Ok(self.begin_iteration()),
            (Phase::Claiming, Event::Claimed(task)) => {
                match SubscriberEmail::parse(task.subscriber_email.clone()) {
                    Ok(recipient) => {
                        let issue_id = task.issue_id;
                        self.phase = Phase::LoadingIssue { task, recipient };
                        Ok(Action::LoadIssue { issue_id })
                    },
                    Err(e) => Ok(
                        self.resolve(
                            Outcome::Skipped,
                            Action::Complete { reason: Completion::InvalidEmail(e) },
                        ),
                    ),
                }
            },
            (Phase::Claiming, Event::QueueEmpty) => Ok(self.pause(self.config.idle_seconds)),
            (Phase::Claiming, Event::StorageFailed) => Ok(self.pause(self.config.error_seconds)),
            (Phase::LoadingIssue { task, recipient }, Event::IssueFound(issue)) => {
                if issue.id == task.issue_id {
                    self.phase = Phase::Sending { task };
                    Ok(
                        Action::Send {
                            recipient,
                            subject: issue.title,
                            html_body: issue.html_body,
                            text_body: issue.text_body,
                        },
                    )
                } else {
                    self.phase = Phase::LoadingIssue { task, recipient };
                    Err(WorkerError::UnexpectedEvent)
                }
            },
            (Phase::LoadingIssue { .. }, Event::IssueMissing) => Ok(
                self.resolve(Outcome::Abandoned, Action::Abandon),
            ),
            (Phase::LoadingIssue { .. }, Event::StorageFailed) => Ok(
                self.resolve(Outcome::Abandoned, Action::Abandon),
            ),
            (Phase::Sending { .. }, Event::Sent) => Ok(
                self.resolve(
                    Outcome::Delivered,
                    Action::Complete { reason: Completion::Delivered },
                ),
            ),
            (Phase::Sending { task }, Event::SendFailed { now }) => {
                if task.retry_count >= self.config.max_retries - 1 {
                    Ok(self.resolve(Outcome::DeadLettered, Action::ExhaustAndDrop))
                } else {
                    let backoff: i64 = self.config.backoff_seconds as i64;
                    Ok(
                        self.resolve(
                            Outcome::Deferred,
                            Action::Defer {
                                retry_count: task.retry_count + 1,
                                not_before: now + backoff,
                            },
                        ),
                    )
                }
            },
            (Phase::Resolving { outcome }, Event::Resolved) => {
                match outcome {
                    Outcome::Abandoned => Ok(self.pause(self.config.error_seconds)),
                    _ => Ok(self.begin_iteration()),
                }
            },
            (Phase::Resolving { .. }, Event::StorageFailed) => Ok(
                self.pause(self.config.error_seconds),
            ),
            (phase, _) => {
                self.phase = phase;
                Err(WorkerError::UnexpectedEvent)
            },
        }
    }
}

} // verus!

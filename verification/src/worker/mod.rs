//! The delivery worker as a state machine: each step takes the outcome of the
//! outside work that the worker asked for last and answers with the outside
//! work to do next. The worker itself performs none of it.

pub mod laws;
pub mod machine;
pub mod model;

pub use machine::{Worker, WorkerError};
pub use model::{
    after_failed_send, backoff_fits, holds_claim, next_iteration, not_an_address, transition, Action,
    ActionView,
    Completion, CompletionView, Event, EventView, Issue, IssueView, Outcome, Phase, PhaseView,
    WorkerConfig, WorkerView,
};

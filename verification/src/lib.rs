//! The core of a newsletter service: the validated value types that guard
//! what enters it, the queue of pending deliveries with its claim protocol,
//! and the worker that drains the queue.
//!
//! - [`domain`] holds the value types. Each is obtained by parsing alone, so
//!   whoever holds one knows that its rule held when it was made.
//! - [`queue`] holds the delivery queue. Any number of workers may claim from
//!   it at once; no task is ever held by two of them.
//! - [`worker`] holds the worker as a state machine. It decides; its host
//!   does the outside work and reports what came of it.
//! - [`issue_delivery_worker`] runs one delivery from end to end in memory.
//! - [`routes`] holds the texts that the web routes compute.
//! - [`text`] holds the character classes and measures that the rest shares.

pub mod domain;
pub mod issue_delivery_worker;
pub mod queue;
pub mod routes;
pub mod text;
pub mod worker;

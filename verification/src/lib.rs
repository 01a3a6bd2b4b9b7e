//! A request-execution dispatch core.
//!
//! Two independently completing asynchronous inputs — an application context
//! and an inbound request — are joined exactly once and then handed to a
//! synchronous execute step under one of several interchangeable dispatch
//! strategies (inline, blocking pool, external spawner).
//!
//! The crate models the asynchronous world as explicit events: a driver owns
//! the real producers and feeds their poll outcomes into the state machines
//! defined here, which make every decision. All decision logic is verified;
//! drivers only relay events.

pub mod driver;
pub mod join_point;
pub mod joiner;
pub mod oneshot;
pub mod operation;
pub mod percent;
pub mod query_string;
pub mod request;
pub mod response;
pub mod source;
pub mod strategy;
pub mod task_handle;

//! Dispatch strategies: interchangeable policies for where the synchronous
//! execute step runs once both inputs are joined.

use vstd::prelude::*;

verus! {

/// The construction-time choice of dispatch policy.
#[derive(Debug, PartialEq, Eq, Clone, Copy)]
pub enum Strategy {
    /// Run the execute step immediately on the polling call stack.
    Inline,
    /// Run it on a blocking-capable worker pool, announcing the blocking
    /// section to the host scheduler first. The only strategy allowed to
    /// report transient backpressure.
    BlockingPool,
    /// Package it as a unit of work for a caller-supplied spawner and
    /// await the panic-safe task handle.
    ExternalSpawner,
}

impl Strategy {
    /// The per-instance toggle between the blocking pool and inline
    /// execution.
    pub fn use_blocking(enabled: bool) -> (r: Strategy)
        ensures
            r == if enabled {
                Strategy::BlockingPool
            } else {
                Strategy::Inline
            },
    {
        if enabled {
            Strategy::BlockingPool
        } else {
            Strategy::Inline
        }
    }
}

/// One poll of the blocking pool while it hosts the execute step.
#[derive(Debug, PartialEq, Eq)]
pub enum BlockingPoll<T> {
    /// The pool cannot admit a blocking section right now; the work has
    /// not run and the operation must be re-polled later.
    NotReady,
    /// The execute step ran to completion on the pool.
    Ran(T),
    /// The pool rejected the blocking request outright.
    Refused,
}

} // verus!

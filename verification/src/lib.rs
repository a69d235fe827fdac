//! A fork-join work scheduler: callers seed a queue with work units, each of
//! which may enqueue further units while it executes; `run` drives the whole
//! transitive workload to quiescence.

pub mod counter;
pub mod deque;
pub mod queue;
pub mod worker;

pub use queue::WorkQueue;

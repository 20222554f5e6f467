//! Thread-local stats with periodic aggregation.
//!
//! Writes to stats are expected to vastly outnumber reads, so writes stay
//! thread-confined and cheap while reads may lag behind until an aggregation
//! pass merges every thread-local instance into its canonical value. The
//! crate provides the registry of thread-local containers, the aggregation
//! pass over that registry, and the single-flight gate that hands out the
//! periodic aggregation task exactly once per process. Timers and task
//! execution belong to the surrounding runtime, which drives the aggregation
//! pass from the task description returned here.

pub mod aggregatable;
pub mod aggregator;
pub mod container;
pub mod counter;
pub mod probe;
pub mod scheduler;

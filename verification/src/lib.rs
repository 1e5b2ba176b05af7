//! Desync orders the operations performed on a piece of data instead of guarding it with locks.
//!
//! This crate holds the decision logic of the scheduler: the state machines of job queues, the
//! bookkeeping of the thread pool, the results of scheduler futures and the buffers of pipe streams.
//! Every transition is a verified function whose contract states the new state and the action the
//! caller has to perform.
use vstd::prelude::*;

pub mod job;
pub mod future_job;
pub mod scheduler;
pub mod pipe;

verus! {

} // verus!

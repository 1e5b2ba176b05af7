//! Jobs handed to a scheduler thread run once.
use vstd::prelude::*;
use crate::job::Job;

verus! {

/// Wraps a job that runs once into something the thread can keep and call: running it a second
/// time is refused, since the job has been consumed.
pub fn wrap_fnonce<TFn: Send + FnOnce()>(job: TFn) -> (wrapped: Job<TFn>)
    ensures
        wrapped.action() == Some(job),
{
    Job::new(job)
}

} // verus!

//! Jobs that a queue runs: each holds an action that runs at most once.
use vstd::prelude::*;

verus! {

/// Basic job is just a FnOnce
pub struct Job<TFn> {
    action: Option<TFn>,
}

impl<TFn: Send + FnOnce()> Job<TFn> {
    /// The action this job still has to run, or `None` once it has run.
    pub closed spec fn action(&self) -> Option<TFn> {
        self.action
    }

    /// A job that will run `action`.
    pub fn new(action: TFn) -> (job: Job<TFn>)
        ensures
            job.action() == Some(action),
    {
        Job { action: Some(action) }
    }

    /// Whether this job has not run yet.
    pub fn is_pending(&self) -> (pending: bool)
        ensures
            pending == self.action() is Some,
    {
        self.action.is_some()
    }

    /// Runs the action, consuming it: a job runs once (running it again is refused).
    pub fn run(&mut self)
        requires
            old(self).action() is Some,
            old(self).action()->0.requires(()),
        ensures
            final(self).action() is None,
            old(self).action()->0.ensures((), ()),
    {
        let action = self.action.take();
        if let Some(action) = action {
            action();
        }
    }
}

} // verus!

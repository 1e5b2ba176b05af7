//! Jobs that evaluate a future: the future is created when the job first runs, and kept while it
//! is pending.
use vstd::prelude::*;

verus! {

/// Where a job that evaluates a future stands.
pub enum JobState<TFn, TFuture> {
    /// Need to call the function to create the underlying future
    FutureNotCreated(TFn),
    /// The future is waiting to be evaluated
    WaitingForFuture(TFuture),
    /// The future has completed
    Completed,
}

impl<TFn: FnOnce() -> TFuture, TFuture> JobState<TFn, TFuture> {
    /// Moves the future out of this state, creating it first if it has not been created; the
    /// state becomes `Completed`. Returns `None` when the future has already gone away.
    pub fn take(&mut self) -> (future: Option<TFuture>)
        requires
            *old(self) is FutureNotCreated ==> old(self)->FutureNotCreated_0.requires(()),
        ensures
            *final(self) is Completed,
            match *old(self) {
                JobState::FutureNotCreated(create_fn) => future is Some && create_fn.ensures((), future->0),
                JobState::WaitingForFuture(waiting) => future == Some(waiting),
                JobState::Completed => future is None,
            },
    {
        let mut value = JobState::Completed;
        std::mem::swap(self, &mut value);
        match value {
            JobState::FutureNotCreated(create_fn) => Some(create_fn()),
            JobState::WaitingForFuture(future) => Some(future),
            JobState::Completed => None,
        }
    }
}

/// Job that evaluates a future
pub struct FutureJob<TFn, TFuture> {
    action: JobState<TFn, TFuture>,
    creations: Ghost<nat>,
}

impl<TFn: FnOnce() -> TFuture, TFuture> FutureJob<TFn, TFuture> {
    /// Where this job stands.
    pub closed spec fn state(&self) -> JobState<TFn, TFuture> {
        self.action
    }

    /// How many times this job has called the function that creates its future.
    pub closed spec fn creations(&self) -> nat {
        self.creations@
    }

    /// The future has been created at most once, and exactly when the job no longer holds the
    /// function that creates it.
    pub open spec fn wf(&self) -> bool {
        &&& self.creations() <= 1
        &&& (self.state() is FutureNotCreated <==> self.creations() == 0)
    }

    /// A job whose future `create_future` creates when the job first runs.
    pub fn new(create_future: TFn) -> (job: FutureJob<TFn, TFuture>)
        ensures
            job.wf(),
            job.creations() == 0,
            job.state() == JobState::<TFn, TFuture>::FutureNotCreated(create_future),
    {
        FutureJob { action: JobState::FutureNotCreated(create_future), creations: Ghost(0) }
    }

    /// Whether the job has completed: its future has been taken for the last time.
    pub fn is_completed(&self) -> (completed: bool)
        ensures
            completed == (self.state() is Completed),
    {
        match self.action {
            JobState::Completed => true,
            _ => false,
        }
    }

    /// Takes the future to poll: the one that is waiting, or a newly created one when the job runs
    /// for the first time. Running a job that has completed is refused.
    pub fn take_future(&mut self) -> (future: TFuture)
        requires
            old(self).wf(),
            !(old(self).state() is Completed),
            old(self).state() is FutureNotCreated ==> old(self).state()->FutureNotCreated_0.requires(()),
        ensures
            final(self).wf(),
            final(self).creations() == 1,
            final(self).creations() == old(self).creations() + (if old(self).state() is FutureNotCreated {
                1int
            } else {
                0int
            }),
            final(self).state() is Completed,
            match old(self).state() {
                JobState::FutureNotCreated(create_fn) => create_fn.ensures((), future),
                JobState::WaitingForFuture(waiting) => future == waiting,
                JobState::Completed => false,
            },
    {
        let mut value = JobState::Completed;
        std::mem::swap(&mut self.action, &mut value);
        match value {
            JobState::FutureNotCreated(create_fn) => {
                proof {
                    self.creations@ = 1;
                }
                create_fn()
            },
            JobState::WaitingForFuture(future) => future,
            JobState::Completed => vstd::pervasive::unreached(),
        }
    }

    /// Keeps a future that returned pending, to be polled again when the job runs next.
    pub fn wait_for(&mut self, future: TFuture)
        requires
            old(self).wf(),
            !(old(self).state() is FutureNotCreated),
        ensures
            final(self).wf(),
            final(self).creations() == old(self).creations(),
            final(self).state() == JobState::<TFn, TFuture>::WaitingForFuture(future),
    {
        self.action = JobState::WaitingForFuture(future);
    }
}

/// Over any run of a job that evaluates a future, the function that creates the future is called
/// at most once: the first run creates it; a run that finds it pending keeps it for the next run,
/// which polls that same future (see `take_future` and `wait_for`); and a completed job refuses to
/// run.
pub proof fn lemma_future_created_at_most_once<TFn: FnOnce() -> TFuture, TFuture>(job: FutureJob<TFn, TFuture>)
    requires
        job.wf(),
    ensures
        job.creations() <= 1,
        job.creations() == 1 ==> !(job.state() is FutureNotCreated),
{
}

} // verus!

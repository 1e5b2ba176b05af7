//! The data that a job queue keeps under its lock: the jobs waiting to run and the queue's state.
//!
//! Running a job happens outside the lock, so draining a queue alternates between the transitions
//! below (taken with the lock held) and running the job that `dequeue` handed out.
use vstd::prelude::*;
use super::queue_state::QueueState;

verus! {

/// What the scheduler keeps for one job queue: the jobs in the order they run, and the state.
pub struct JobQueueCore<J> {
    queue: std::collections::VecDeque<J>,
    state: QueueState,
    arrived: Ghost<Seq<J>>,
    started: Ghost<Seq<J>>,
    returned: Ghost<Seq<J>>,
}

/// Two cores with the same history: the same jobs arrived, started and put back.
pub open spec fn same_history<J>(a: JobQueueCore<J>, b: JobQueueCore<J>) -> bool {
    &&& a.arrived() == b.arrived()
    &&& a.started() == b.started()
    &&& a.returned() == b.returned()
}

/// The states in which the queue is held by a thread or a future but must not hand out jobs:
/// the job at its front is waiting for a wake-up, an unpark or a poll.
pub open spec fn holds_jobs_back(state: QueueState) -> bool {
    match state {
        QueueState::WaitingForWake | QueueState::WaitingForPoll(_) | QueueState::WaitingForUnpark => true,
        _ => false,
    }
}

/// The state a draining thread moves to once a job has returned pending.
pub open spec fn state_after_pending_job(state: QueueState) -> QueueState {
    match state {
        QueueState::Running => QueueState::WaitingForWake,
        QueueState::AwokenWhileRunning => QueueState::Running,
        other => other,
    }
}

impl<J> JobQueueCore<J> {
    /// The jobs on the queue, the next one to run first.
    pub closed spec fn jobs(&self) -> Seq<J> {
        self.queue@
    }

    /// The state of the queue.
    pub closed spec fn spec_state(&self) -> QueueState {
        self.state
    }

    /// Every job pushed onto the back of the queue so far, in the order they arrived.
    pub closed spec fn arrived(&self) -> Seq<J> {
        self.arrived@
    }

    /// Every job that `dequeue` handed out for the first time, in the order they were started.
    pub closed spec fn started(&self) -> Seq<J> {
        self.started@
    }

    /// The jobs put back at the front of the queue (to be resumed) and not yet handed out again.
    pub closed spec fn returned(&self) -> Seq<J> {
        self.returned@
    }

    /// The jobs started so far are the first ones that arrived, in order, and the jobs waiting are
    /// the jobs put back at the front followed by the jobs not yet started, in arrival order.
    pub open spec fn wf(&self) -> bool {
        &&& self.started().len() <= self.arrived().len()
        &&& self.started() == self.arrived().take(self.started().len() as int)
        &&& self.jobs() == self.returned() + self.arrived().skip(self.started().len() as int)
    }

    /// Creates the core of a new job queue: idle, with no jobs.
    pub fn new() -> (core: JobQueueCore<J>)
        ensures
            core.wf(),
            core.jobs() == Seq::<J>::empty(),
            core.spec_state() == QueueState::Idle,
            core.arrived() == Seq::<J>::empty(),
            core.started() == Seq::<J>::empty(),
            core.returned() == Seq::<J>::empty(),
    {
        let core = JobQueueCore {
            queue: std::collections::VecDeque::new(),
            state: QueueState::Idle,
            arrived: Ghost(Seq::empty()),
            started: Ghost(Seq::empty()),
            returned: Ghost(Seq::empty()),
        };
        assert(core.jobs() =~= core.returned() + core.arrived().skip(0));
        assert(core.started() =~= core.arrived().take(0));
        core
    }

    /// The state of the queue.
    pub fn state(&self) -> (state: QueueState)
        ensures
            state == self.spec_state(),
    {
        self.state
    }

    /// Moves the queue to a new state, leaving its jobs as they are.
    pub fn set_state(&mut self, state: QueueState)
        requires
            old(self).wf(),
        ensures
            final(self).wf(),
            same_history(*old(self), *final(self)),
            final(self).spec_state() == state,
            final(self).jobs() == old(self).jobs(),
    {
        self.state = state;
    }

    /// The number of jobs waiting on the queue.
    pub fn len(&self) -> (len: usize)
        ensures
            len == self.jobs().len(),
    {
        self.queue.len()
    }

    /// Adds a job at the back of the queue, after every job already on it.
    pub fn push_back(&mut self, job: J)
        requires
            old(self).wf(),
        ensures
            final(self).wf(),
            final(self).jobs() == old(self).jobs().push(job),
            final(self).spec_state() == old(self).spec_state(),
            final(self).arrived() == old(self).arrived().push(job),
            final(self).started() == old(self).started(),
            final(self).returned() == old(self).returned(),
    {
        self.queue.push_back(job);
        proof {
            let a = self.arrived@;
            let n = self.started@.len() as int;
            self.arrived@ = a.push(self.queue@.last());
            assert(self.started@ =~= self.arrived@.take(n));
            assert(self.queue@ =~= self.returned@ + self.arrived@.skip(n));
        }
    }

    /// If there are any jobs waiting, dequeues the next one.
    ///
    /// No job is handed out while the queue waits for a wake-up, an unpark or a poll.
    ///
    /// A job put back at the front is handed out again before any other; otherwise the job handed
    /// out is the next one that arrived, which is then started.
    pub fn dequeue(&mut self) -> (job: Option<J>)
        requires
            old(self).wf(),
        ensures
            final(self).wf(),
            final(self).arrived() == old(self).arrived(),
            job is None ==> same_history(*old(self), *final(self)),
            job is Some && old(self).returned().len() > 0 ==> {
                &&& job->0 == old(self).returned()[0]
                &&& final(self).returned() == old(self).returned().drop_first()
                &&& final(self).started() == old(self).started()
            },
            job is Some && old(self).returned().len() == 0 ==> {
                &&& job->0 == old(self).arrived()[old(self).started().len() as int]
                &&& final(self).started() == old(self).started().push(job->0)
                &&& final(self).returned() == old(self).returned()
            },
            final(self).spec_state() == old(self).spec_state(),
            holds_jobs_back(old(self).spec_state()) || old(self).jobs().len() == 0 ==> {
                &&& job is None
                &&& final(self).jobs() == old(self).jobs()
            },
            !holds_jobs_back(old(self).spec_state()) && old(self).jobs().len() > 0 ==> {
                &&& job == Some(old(self).jobs()[0])
                &&& final(self).jobs() == old(self).jobs().drop_first()
            },
    {
        match self.state {
            QueueState::WaitingForWake => None,
            QueueState::WaitingForPoll(_) => None,
            QueueState::WaitingForUnpark => None,
            _ => {
                let job = self.queue.pop_front();
                if let Some(ref j) = job {
                    proof {
                        let r = self.returned@;
                        let n = self.started@.len() as int;
                        if r.len() > 0 {
                            self.returned@ = r.drop_first();
                            assert(self.queue@ =~= self.returned@ + self.arrived@.skip(n));
                        } else {
                            assert(*j == self.arrived@[n]);
                            self.started@ = self.started@.push(*j);
                            assert(self.started@ =~= self.arrived@.take(n + 1));
                            assert(self.queue@ =~= self.returned@ + self.arrived@.skip(n + 1));
                        }
                    }
                }
                job
            },
        }
    }

    /// Adds a job to the front of the queue (so it's the next one to run)
    pub fn requeue(&mut self, job: J)
        requires
            old(self).wf(),
        ensures
            final(self).wf(),
            final(self).jobs() == seq![job] + old(self).jobs(),
            final(self).spec_state() == old(self).spec_state(),
            final(self).arrived() == old(self).arrived(),
            final(self).started() == old(self).started(),
            final(self).returned() == seq![job] + old(self).returned(),
    {
        self.queue.push_front(job);
        proof {
            let r = self.returned@;
            self.returned@ = seq![self.queue@[0]] + r;
            assert(self.queue@ =~= self.returned@ + self.arrived@.skip(self.started@.len() as int));
        }
    }

    /// After a job that a draining thread ran has returned pending (and has been requeued), moves
    /// a running queue to wait for a wake-up, or back to running if a wake-up arrived meanwhile.
    ///
    /// Returns true when the queue now waits for a wake-up and the thread has to stop draining.
    pub fn suspend_after_pending(&mut self) -> (stop_draining: bool)
        requires
            old(self).wf(),
        ensures
            final(self).wf(),
            same_history(*old(self), *final(self)),
            final(self).spec_state() == state_after_pending_job(old(self).spec_state()),
            final(self).jobs() == old(self).jobs(),
            stop_draining == (final(self).spec_state() == QueueState::WaitingForWake),
    {
        self.state = match self.state {
            QueueState::Running => QueueState::WaitingForWake,
            QueueState::AwokenWhileRunning => QueueState::Running,
            other => other,
        };
        self.state == QueueState::WaitingForWake
    }

    /// Once a draining thread finds no job to run, tries to move the queue back to the 'not
    /// running' state.
    ///
    /// Returns true when the thread is done draining: the queue is empty (a running queue then
    /// becomes idle), or it has been made pending again and will restart once rescheduled.
    pub fn finish_draining(&mut self) -> (done: bool)
        requires
            old(self).wf(),
        ensures
            final(self).wf(),
            same_history(*old(self), *final(self)),
            final(self).jobs() == old(self).jobs(),
            old(self).jobs().len() == 0 ==> {
                &&& done
                &&& final(self).spec_state() == (if old(self).spec_state() == QueueState::Running {
                    QueueState::Idle
                } else {
                    old(self).spec_state()
                })
            },
            old(self).jobs().len() > 0 ==> {
                &&& done == (old(self).spec_state() == QueueState::Pending)
                &&& final(self).spec_state() == old(self).spec_state()
            },
    {
        if self.queue.len() == 0 {
            self.state = match self.state {
                QueueState::Running => QueueState::Idle,
                x => x,
            };
            true
        } else if self.state == QueueState::Pending {
            true
        } else {
            false
        }
    }

    /// After a job that runs synchronously on the current thread has returned pending, moves the
    /// queue to wait for the thread to be unparked, unless a wake-up arrived meanwhile.
    ///
    /// Returns true when the thread has to park.
    pub fn park_after_pending(&mut self) -> (should_park: bool)
        requires
            old(self).wf(),
            old(self).spec_state() == QueueState::Running
                || old(self).spec_state() == QueueState::AwokenWhileRunning,
        ensures
            final(self).wf(),
            same_history(*old(self), *final(self)),
            final(self).jobs() == old(self).jobs(),
            old(self).spec_state() == QueueState::AwokenWhileRunning ==> {
                &&& !should_park
                &&& final(self).spec_state() == QueueState::Running
            },
            old(self).spec_state() == QueueState::Running ==> {
                &&& should_park
                &&& final(self).spec_state() == QueueState::WaitingForUnpark
            },
    {
        self.state = match self.state {
            QueueState::AwokenWhileRunning => QueueState::Running,
            _ => QueueState::WaitingForUnpark,
        };
        self.state == QueueState::WaitingForUnpark
    }

    /// Whether a thread parked by `park_after_pending` can carry on running the queue.
    pub fn resumes_after_park(&self) -> (resume: bool)
        requires
            self.spec_state() == QueueState::Running
                || self.spec_state() == QueueState::AwokenWhileRunning
                || self.spec_state() == QueueState::WaitingForUnpark,
        ensures
            resume == (self.spec_state() != QueueState::WaitingForUnpark),
    {
        match self.state {
            QueueState::WaitingForUnpark => false,
            _ => true,
        }
    }
}

/// Jobs on a queue start in the order they arrived, over any run of its operations: the jobs
/// started so far are the first ones that arrived, in order; the jobs waiting are the jobs put back
/// at the front (each one started before and returned pending), then the jobs not yet started, in
/// arrival order. So a job runs for the first time only after every job that arrived before it
/// has started, and a job that is put back runs again before any later job starts.
pub proof fn lemma_jobs_start_in_arrival_order<J>(core: JobQueueCore<J>)
    requires
        core.wf(),
    ensures
        forall|i: int| 0 <= i < core.started().len() ==> core.started()[i] == core.arrived()[i],
        core.jobs() == core.returned() + core.arrived().skip(core.started().len() as int),
        core.returned().len() == 0 ==> core.jobs() == core.arrived().skip(core.started().len() as int),
        core.returned().len() > 0 ==> core.jobs()[0] == core.returned()[0],
{
    assert forall|i: int| 0 <= i < core.started().len() implies core.started()[i] == core.arrived()[i] by {
        assert(core.started()[i] == core.arrived().take(core.started().len() as int)[i]);
    }
    if core.returned().len() == 0 {
        assert(core.returned() + core.arrived().skip(core.started().len() as int)
            =~= core.arrived().skip(core.started().len() as int));
    }
}

} // verus!

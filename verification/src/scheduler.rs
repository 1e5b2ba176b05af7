//! Scheduling of jobs onto queues that run one job at a time.
//!
//! Jobs scheduled on a queue run in the order that they arrive, so anything on a queue runs
//! synchronously with respect to the queue itself. A queue can also be suspended once it has
//! finished its active jobs, and resumed later; resuming before the suspension takes effect
//! cancels it.
use vstd::prelude::*;

pub mod queue_state;
pub mod job_queue;
pub mod wake_thread;
pub mod scheduler_core;
pub mod scheduler_future;
pub mod scheduler_thread;
pub mod try_sync_error;

verus! {

/// The smallest maximum number of threads that a new scheduler allows.
pub const MIN_THREADS: usize = 8;

/// Calls `num_cpus::get`, which returns the number of logical CPUs available to the current
/// process; its documentation promises at least 1. Which number comes back depends on the machine.
#[verifier::external_body]
fn available_cpus() -> (cpus: usize)
    ensures
        cpus >= 1,
{
    num_cpus::get()
}

/// The maximum number of threads for a machine with `cpus` CPUs: two per CPU (saturating at
/// `usize::MAX`), and never fewer than `MIN_THREADS`.
pub open spec fn max_threads_for(cpus: usize) -> usize {
    let doubled: usize = if cpus * 2 > usize::MAX { usize::MAX } else { (cpus * 2) as usize };
    if doubled > MIN_THREADS { doubled } else { MIN_THREADS }
}

/// The maximum number of threads for a machine with `cpus` CPUs.
pub fn max_threads_for_cpus(cpus: usize) -> (max_threads: usize)
    ensures
        max_threads == max_threads_for(cpus),
{
    let doubled: usize = match cpus.checked_mul(2) {
        Some(d) => d,
        None => usize::MAX,
    };
    if doubled > MIN_THREADS { doubled } else { MIN_THREADS }
}

/// The default maximum number of threads in a scheduler: two per available CPU, at least
/// `MIN_THREADS`.
pub fn initial_max_threads() -> (max_threads: usize)
    ensures
        max_threads >= MIN_THREADS,
        exists|cpus: usize| cpus >= 1 && max_threads == max_threads_for(cpus),
{
    let cpus = available_cpus();
    max_threads_for_cpus(cpus)
}

/// Represents the state of a job queue of the scheduler
#[derive(Clone, Copy, PartialEq, Eq, Debug, Structural)]
pub enum QueueStatus {
    /// Queue is currently not running and not ready to run
    Idle,
    /// Queue has been queued up to run but isn't running yet
    Pending,
    /// Queue has been assigned to a thread and is currently running
    Running,
    /// Queue is running but should suspend instead of running the next step
    Suspending,
    /// Queue has been suspended and won't run futher jobs
    Suspended,
}

/// How a synchronous job gets to run, decided from the state of its queue.
#[derive(Clone, Copy, PartialEq, Eq, Debug, Structural)]
pub enum RunAction {
    /// The queue is empty: call the function directly and don't bother with storing a result
    Immediate,
    /// The queue is not empty but not running: drain on this thread so we get to the sync op
    DrainOnThisThread,
    /// The queue is running in the background
    WaitForBackground,
}

/// Structure protected by the job queue's lock: the jobs, the state, and how many times the
/// queue has been suspended (negative when resumptions arrived before their suspensions).
pub struct QueueCore<J> {
    queue: std::collections::VecDeque<J>,
    state: QueueStatus,
    suspension_count: i32,
    arrived: Ghost<Seq<J>>,
    departed: Ghost<Seq<J>>,
}

/// The state of a queue once the job that `suspend` scheduled has run, leaving `suspensions`
/// suspensions outstanding.
pub open spec fn status_after_suspension(status: QueueStatus, suspensions: int) -> QueueStatus {
    if suspensions > 0 { QueueStatus::Suspending } else { status }
}

/// The state of a queue once `resume` has run, leaving `suspensions` suspensions outstanding.
pub open spec fn status_after_resume(status: QueueStatus, suspensions: int) -> QueueStatus {
    if suspensions > 0 {
        status
    } else if status == QueueStatus::Suspended {
        QueueStatus::Idle
    } else if status == QueueStatus::Suspending {
        QueueStatus::Running
    } else {
        status
    }
}

/// The states of a queue that is suspended or about to be.
pub open spec fn is_suspension(state: QueueStatus) -> bool {
    state == QueueStatus::Suspending || state == QueueStatus::Suspended
}

impl<J> QueueCore<J> {
    /// The jobs on the queue, the next one to run first.
    pub closed spec fn jobs(&self) -> Seq<J> {
        self.queue@
    }

    /// The state of the queue.
    pub closed spec fn status(&self) -> QueueStatus {
        self.state
    }

    /// Suspensions requested minus resumptions requested.
    pub closed spec fn suspensions(&self) -> int {
        self.suspension_count as int
    }

    /// Every job scheduled on the queue so far, in the order they arrived.
    pub closed spec fn arrived(&self) -> Seq<J> {
        self.arrived@
    }

    /// Every job handed out by `dequeue` so far, in the order they were handed out.
    pub closed spec fn departed(&self) -> Seq<J> {
        self.departed@
    }

    /// A queue is only suspended (or suspending) while more suspensions than resumptions were
    /// requested, and the jobs handed out so far followed by the jobs still waiting are exactly the
    /// jobs that arrived, in order.
    pub open spec fn wf(&self) -> bool {
        &&& is_suspension(self.status()) ==> self.suspensions() > 0
        &&& self.departed() + self.jobs() == self.arrived()
    }

    /// Creates the core of a new job queue: idle, with no jobs and no suspension.
    pub fn new() -> (core: QueueCore<J>)
        ensures
            core.wf(),
            core.jobs() == Seq::<J>::empty(),
            core.status() == QueueStatus::Idle,
            core.suspensions() == 0,
            core.arrived() == Seq::<J>::empty(),
            core.departed() == Seq::<J>::empty(),
    {
        let core = QueueCore {
            queue: std::collections::VecDeque::new(),
            state: QueueStatus::Idle,
            suspension_count: 0,
            arrived: Ghost(Seq::empty()),
            departed: Ghost(Seq::empty()),
        };
        assert(core.departed() + core.jobs() =~= core.arrived());
        core
    }

    /// The state of the queue.
    pub fn state(&self) -> (state: QueueStatus)
        ensures
            state == self.status(),
    {
        self.state
    }

    /// The number of jobs waiting on the queue.
    pub fn len(&self) -> (len: usize)
        ensures
            len == self.jobs().len(),
    {
        self.queue.len()
    }

    /// Suspensions requested minus resumptions requested.
    pub fn suspension_count(&self) -> (count: i32)
        ensures
            count == self.suspensions(),
    {
        self.suspension_count
    }

    /// Pushes a job onto the back of the queue. If the queue was idle it becomes pending, and the
    /// result is true: the caller then adds the queue to the schedule and wakes a thread for it.
    pub fn schedule_job(&mut self, job: J) -> (schedule_queue: bool)
        requires
            old(self).wf(),
        ensures
            final(self).wf(),
            final(self).arrived() == old(self).arrived().push(job),
            final(self).departed() == old(self).departed(),
            final(self).jobs() == old(self).jobs().push(job),
            final(self).suspensions() == old(self).suspensions(),
            schedule_queue == (old(self).status() == QueueStatus::Idle),
            final(self).status() == (if schedule_queue { QueueStatus::Pending } else { old(self).status() }),
    {
        self.queue.push_back(job);
        proof {
            self.arrived@ = self.arrived@.push(self.queue@.last());
            assert(self.departed@ + self.queue@ =~= self.arrived@);
        }
        if self.state == QueueStatus::Idle {
            self.state = QueueStatus::Pending;
            true
        } else {
            false
        }
    }

    /// If there are any jobs waiting, dequeues the next one. Nothing is dequeued while the
    /// queue is suspending.
    pub fn dequeue(&mut self) -> (job: Option<J>)
        requires
            old(self).wf(),
        ensures
            final(self).wf(),
            final(self).arrived() == old(self).arrived(),
            final(self).departed() == (if job is Some {
                old(self).departed().push(job->0)
            } else {
                old(self).departed()
            }),
            final(self).status() == old(self).status(),
            final(self).suspensions() == old(self).suspensions(),
            old(self).status() == QueueStatus::Suspending || old(self).jobs().len() == 0 ==> {
                &&& job is None
                &&& final(self).jobs() == old(self).jobs()
            },
            old(self).status() != QueueStatus::Suspending && old(self).jobs().len() > 0 ==> {
                &&& job == Some(old(self).jobs()[0])
                &&& final(self).jobs() == old(self).jobs().drop_first()
            },
    {
        if self.state == QueueStatus::Suspending {
            None
        } else {
            let job = self.queue.pop_front();
            if let Some(ref j) = job {
                proof {
                    let d = self.departed@;
                    self.departed@ = d.push(*j);
                    assert(self.departed@ + self.queue@ =~= d + old(self).queue@);
                }
            }
            job
        }
    }

    /// Once a draining thread finds no job to dequeue, tries to move the queue back to the 'not
    /// running' state. Returns true when the thread is done: an empty running queue becomes idle,
    /// and a suspending queue becomes suspended, whether or not jobs wait behind the suspension
    /// (they run once the queue is resumed). A running queue with jobs left is not done.
    pub fn finish_draining(&mut self) -> (done: bool)
        requires
            old(self).wf(),
        ensures
            final(self).wf(),
            final(self).arrived() == old(self).arrived(),
            final(self).departed() == old(self).departed(),
            final(self).jobs() == old(self).jobs(),
            final(self).suspensions() == old(self).suspensions(),
            done == (old(self).jobs().len() == 0 || old(self).status() == QueueStatus::Suspending),
            final(self).status() == (if !done {
                old(self).status()
            } else if old(self).status() == QueueStatus::Running {
                QueueStatus::Idle
            } else if old(self).status() == QueueStatus::Suspending {
                QueueStatus::Suspended
            } else {
                old(self).status()
            }),
    {
        if self.state == QueueStatus::Suspending {
            self.state = QueueStatus::Suspended;
            true
        } else if self.queue.len() == 0 {
            if self.state == QueueStatus::Running {
                self.state = QueueStatus::Idle;
            }
            true
        } else {
            false
        }
    }

    /// A thread taking the queue off the schedule marks it running if it is pending. Returns
    /// whether it was.
    pub fn claim(&mut self) -> (claimed: bool)
        requires
            old(self).wf(),
        ensures
            final(self).wf(),
            final(self).arrived() == old(self).arrived(),
            final(self).departed() == old(self).departed(),
            final(self).jobs() == old(self).jobs(),
            final(self).suspensions() == old(self).suspensions(),
            claimed == (old(self).status() == QueueStatus::Pending),
            final(self).status() == (if claimed { QueueStatus::Running } else { old(self).status() }),
    {
        if self.state == QueueStatus::Pending {
            self.state = QueueStatus::Running;
            true
        } else {
            false
        }
    }

    /// If the queue is idle and has pending jobs, marks it pending. Returns true when the caller
    /// has to place it on the schedule.
    pub fn reschedule(&mut self) -> (reschedule: bool)
        requires
            old(self).wf(),
        ensures
            final(self).wf(),
            final(self).arrived() == old(self).arrived(),
            final(self).departed() == old(self).departed(),
            final(self).jobs() == old(self).jobs(),
            final(self).suspensions() == old(self).suspensions(),
            reschedule == (old(self).status() == QueueStatus::Idle && old(self).jobs().len() > 0),
            final(self).status() == (if reschedule { QueueStatus::Pending } else { old(self).status() }),
    {
        if self.state == QueueStatus::Idle && self.queue.len() > 0 {
            self.state = QueueStatus::Pending;
            true
        } else {
            false
        }
    }

    /// What the job that `suspend` schedules does once it runs: counts one more suspension, and
    /// marks the queue as suspending unless it was already resumed for it.
    pub fn begin_suspension(&mut self)
        requires
            old(self).wf(),
            old(self).suspensions() < i32::MAX,
        ensures
            final(self).wf(),
            final(self).arrived() == old(self).arrived(),
            final(self).departed() == old(self).departed(),
            final(self).jobs() == old(self).jobs(),
            final(self).suspensions() == old(self).suspensions() + 1,
            final(self).status() == status_after_suspension(old(self).status(), final(self).suspensions()),
    {
        self.suspension_count = self.suspension_count + 1;
        if self.suspension_count > 0 {
            self.state = QueueStatus::Suspending;
        }
    }

    /// Resumes a queue that was previously suspended: counts one resumption. Once as many
    /// resumptions as suspensions arrived, a suspended queue becomes idle (the result is true: the
    /// caller reschedules it) and a suspending one carries on running.
    pub fn resume(&mut self) -> (needs_reschedule: bool)
        requires
            old(self).wf(),
            old(self).suspensions() > i32::MIN,
        ensures
            final(self).wf(),
            final(self).arrived() == old(self).arrived(),
            final(self).departed() == old(self).departed(),
            final(self).jobs() == old(self).jobs(),
            final(self).suspensions() == old(self).suspensions() - 1,
            needs_reschedule == (final(self).suspensions() <= 0 && old(self).status() == QueueStatus::Suspended),
            final(self).status() == status_after_resume(old(self).status(), final(self).suspensions()),
    {
        self.suspension_count = self.suspension_count - 1;
        if self.suspension_count <= 0 {
            match self.state {
                QueueStatus::Suspended => {
                    self.state = QueueStatus::Idle;
                    true
                },
                QueueStatus::Suspending => {
                    self.state = QueueStatus::Running;
                    false
                },
                _ => false,
            }
        } else {
            false
        }
    }

    /// Decides how a synchronous job runs: straight away on this thread if the queue is idle,
    /// by draining the queue on this thread if it is pending (both claim the queue as running),
    /// or by waiting for the background thread that runs or will resume the queue.
    pub fn sync_action(&mut self) -> (action: RunAction)
        requires
            old(self).wf(),
        ensures
            final(self).wf(),
            final(self).arrived() == old(self).arrived(),
            final(self).departed() == old(self).departed(),
            final(self).jobs() == old(self).jobs(),
            final(self).suspensions() == old(self).suspensions(),
            old(self).status() == QueueStatus::Idle ==> action == RunAction::Immediate
                && final(self).status() == QueueStatus::Running,
            old(self).status() == QueueStatus::Pending ==> action == RunAction::DrainOnThisThread
                && final(self).status() == QueueStatus::Running,
            old(self).status() != QueueStatus::Idle && old(self).status() != QueueStatus::Pending ==> {
                &&& action == RunAction::WaitForBackground
                &&& final(self).status() == old(self).status()
            },
    {
        match self.state {
            QueueStatus::Suspended => RunAction::WaitForBackground,
            QueueStatus::Suspending => RunAction::WaitForBackground,
            QueueStatus::Running => RunAction::WaitForBackground,
            QueueStatus::Pending => {
                self.state = QueueStatus::Running;
                RunAction::DrainOnThisThread
            },
            QueueStatus::Idle => {
                self.state = QueueStatus::Running;
                RunAction::Immediate
            },
        }
    }

    /// Decides whether a job can run synchronously right now without waiting: only when the queue
    /// is idle, in which case it is claimed as running; any other state means the queue is busy.
    pub fn try_sync_action(&mut self) -> (run_now: bool)
        requires
            old(self).wf(),
        ensures
            final(self).wf(),
            final(self).arrived() == old(self).arrived(),
            final(self).departed() == old(self).departed(),
            final(self).jobs() == old(self).jobs(),
            final(self).suspensions() == old(self).suspensions(),
            run_now == (old(self).status() == QueueStatus::Idle),
            final(self).status() == (if run_now { QueueStatus::Running } else { old(self).status() }),
    {
        if self.state == QueueStatus::Idle {
            self.state = QueueStatus::Running;
            true
        } else {
            false
        }
    }

    /// When a thread draining the queue for a synchronous job finds nothing to dequeue: a
    /// suspending queue becomes suspended, and the result is true (the thread waits for the
    /// queue to be resumed and finished in the background).
    pub fn suspend_if_requested(&mut self) -> (wait_in_background: bool)
        requires
            old(self).wf(),
        ensures
            final(self).wf(),
            final(self).arrived() == old(self).arrived(),
            final(self).departed() == old(self).departed(),
            final(self).jobs() == old(self).jobs(),
            final(self).suspensions() == old(self).suspensions(),
            wait_in_background == (old(self).status() == QueueStatus::Suspending),
            final(self).status() == (if wait_in_background { QueueStatus::Suspended } else { old(self).status() }),
    {
        if self.state == QueueStatus::Suspending {
            self.state = QueueStatus::Suspended;
            true
        } else {
            false
        }
    }

    /// Once a synchronous job run on this thread has finished, releases the queue: it becomes
    /// idle, and pending again if jobs are left (the result is true: the caller reschedules it).
    pub fn finish_sync(&mut self) -> (reschedule: bool)
        requires
            old(self).wf(),
        ensures
            final(self).wf(),
            final(self).arrived() == old(self).arrived(),
            final(self).departed() == old(self).departed(),
            final(self).jobs() == old(self).jobs(),
            final(self).suspensions() == old(self).suspensions(),
            reschedule == (old(self).jobs().len() > 0),
            final(self).status() == (if reschedule { QueueStatus::Pending } else { QueueStatus::Idle }),
    {
        self.state = QueueStatus::Idle;
        self.reschedule()
    }

    /// Queues a synchronous job to be run by the thread that runs the queue in the background.
    /// Returns true when the queue is idle, so that the caller reschedules it.
    pub fn push_background_job(&mut self, job: J) -> (need_reschedule: bool)
        requires
            old(self).wf(),
        ensures
            final(self).wf(),
            final(self).arrived() == old(self).arrived().push(job),
            final(self).departed() == old(self).departed(),
            final(self).jobs() == old(self).jobs().push(job),
            final(self).suspensions() == old(self).suspensions(),
            final(self).status() == old(self).status(),
            need_reschedule == (old(self).status() == QueueStatus::Idle),
    {
        self.queue.push_back(job);
        proof {
            self.arrived@ = self.arrived@.push(self.queue@.last());
            assert(self.departed@ + self.queue@ =~= self.arrived@);
        }
        self.state == QueueStatus::Idle
    }
}

/// Jobs leave a queue in the order they arrived, over any run of the queue's operations: the
/// jobs handed out so far are the first ones that arrived, in order, and the jobs still waiting
/// are the ones that arrived after them. In particular a synchronous job, which arrives behind
/// the jobs already queued, is handed out only after each of them.
pub proof fn lemma_jobs_leave_in_arrival_order<J>(core: QueueCore<J>)
    requires
        core.wf(),
    ensures
        core.departed().len() <= core.arrived().len(),
        core.departed() == core.arrived().take(core.departed().len() as int),
        core.jobs() == core.arrived().skip(core.departed().len() as int),
        forall|i: int| 0 <= i < core.departed().len() ==> core.departed()[i] == core.arrived()[i],
{
    assert(core.departed() =~= core.arrived().take(core.departed().len() as int));
    assert(core.jobs() =~= core.arrived().skip(core.departed().len() as int));
}

/// Resuming a running queue before its suspension takes effect cancels the suspension: once the
/// suspending job runs, the queue keeps running and no suspension is outstanding.
pub proof fn lemma_resume_before_suspend(suspensions: int)
    requires
        suspensions <= 0,
    ensures
        status_after_suspension(status_after_resume(QueueStatus::Running, suspensions - 1), suspensions)
            == QueueStatus::Running,
{
}

/// Suspending a running queue and then resuming it, with no other suspension outstanding, lets
/// it carry on: a queue still suspending goes back to running, and one that got suspended
/// becomes idle (and is rescheduled).
pub proof fn lemma_suspend_then_resume(suspensions: int)
    requires
        suspensions <= 0,
    ensures
        status_after_suspension(QueueStatus::Running, suspensions + 1) == QueueStatus::Suspending
            <==> suspensions == 0,
        status_after_resume(status_after_suspension(QueueStatus::Running, suspensions + 1), suspensions)
            == QueueStatus::Running,
        status_after_resume(QueueStatus::Suspended, 0) == QueueStatus::Idle,
{
}

/// A resumption changes the state only of a queue that is suspended or about to be: any other
/// queue keeps its state. In particular a resumption that reaches an idle queue before its
/// suspension leaves it idle, so the next job scheduled on it has the queue scheduled.
pub proof fn lemma_resume_changes_only_suspensions(status: QueueStatus, suspensions: int)
    requires
        !is_suspension(status),
    ensures
        status_after_resume(status, suspensions) == status,
        status == QueueStatus::Idle ==> status_after_resume(status, suspensions) == QueueStatus::Idle,
{
}

/// While another suspension is outstanding, a resumption leaves a suspended queue suspended.
pub proof fn lemma_resume_with_outstanding_suspension(status: QueueStatus, suspensions: int)
    requires
        suspensions > 0,
    ensures
        status_after_resume(status, suspensions) == status,
{
}

} // verus!

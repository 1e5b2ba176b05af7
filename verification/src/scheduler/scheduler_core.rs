//! The scheduler's own bookkeeping: which queues are waiting for a thread, and which of its
//! threads are busy.
use vstd::prelude::*;
use super::queue_state::QueueState;
use super::job_queue::{JobQueueCore, same_history};

verus! {

/// Whether a queue has to be placed on the schedule, given its state and whether it has jobs.
pub open spec fn needs_schedule(state: QueueState, has_jobs: bool) -> bool {
    match state {
        QueueState::Idle => has_jobs,
        QueueState::WaitingForPoll(_) => true,
        _ => false,
    }
}

/// If a queue is idle and has pending jobs, marks it pending. Returns true when the caller has to
/// place the queue on the schedule and wake a thread to run it.
///
/// A queue waiting to be polled again is scheduled too, so that a thread can take over if the
/// future that holds it stops draining it.
pub fn reschedule_queue<J>(core: &mut JobQueueCore<J>) -> (reschedule: bool)
    requires
        old(core).wf(),
    ensures
        final(core).wf(),
        same_history(*old(core), *final(core)),
        final(core).jobs() == old(core).jobs(),
        reschedule == needs_schedule(old(core).spec_state(), old(core).jobs().len() > 0),
        final(core).spec_state() == (if old(core).spec_state() == QueueState::Idle && reschedule {
            QueueState::Pending
        } else {
            old(core).spec_state()
        }),
{
    match core.state() {
        QueueState::Idle => {
            if core.len() > 0 {
                core.set_state(QueueState::Pending);
                true
            } else {
                false
            }
        },
        QueueState::WaitingForPoll(_) => true,
        _ => false,
    }
}

/// Queues a job at the back of a queue, unless a job on the queue has panicked: a panicked queue
/// takes no more jobs and hands the job back (`Err`), unchanged. Otherwise the result says whether
/// the caller has to place the queue on the schedule, as `reschedule_queue` decides for a queue
/// that now has a job.
pub fn queue_job<J>(core: &mut JobQueueCore<J>, job: J) -> (queued: Result<bool, J>)
    requires
        old(core).wf(),
    ensures
        final(core).wf(),
        old(core).spec_state() == QueueState::Panicked ==> {
            &&& queued == Err::<bool, J>(job)
            &&& *final(core) == *old(core)
        },
        old(core).spec_state() != QueueState::Panicked ==> {
            &&& queued == Ok::<bool, J>(needs_schedule(old(core).spec_state(), true))
            &&& final(core).jobs() == old(core).jobs().push(job)
            &&& final(core).arrived() == old(core).arrived().push(job)
            &&& final(core).started() == old(core).started()
            &&& final(core).returned() == old(core).returned()
            &&& final(core).spec_state() == (if old(core).spec_state() == QueueState::Idle {
                QueueState::Pending
            } else {
                old(core).spec_state()
            })
        },
{
    match core.state() {
        QueueState::Panicked => Err(job),
        _ => {
            core.push_back(job);
            Ok(reschedule_queue(core))
        },
    }
}

/// Whether a thread taking a queue off the schedule can run it.
pub open spec fn ready_to_run(state: QueueState) -> bool {
    match state {
        QueueState::Pending | QueueState::WaitingForPoll(_) => true,
        _ => false,
    }
}

/// Marks a queue taken off the schedule as running if it is ready to run. Returns whether it was.
pub fn claim_queue<J>(core: &mut JobQueueCore<J>) -> (claimed: bool)
    requires
        old(core).wf(),
    ensures
        final(core).wf(),
        same_history(*old(core), *final(core)),
        final(core).jobs() == old(core).jobs(),
        claimed == ready_to_run(old(core).spec_state()),
        final(core).spec_state() == (if claimed {
            QueueState::Running
        } else {
            old(core).spec_state()
        }),
        old(core).spec_state() == QueueState::Pending || old(core).spec_state() is WaitingForPoll
            ==> claimed && final(core).spec_state() == QueueState::Running,
{
    match core.state() {
        QueueState::Pending | QueueState::WaitingForPoll(_) => {
            core.set_state(QueueState::Running);
            true
        },
        _ => false,
    }
}

/// Every queue that `reschedule_queue` or `queue_job` places on the schedule can be claimed by
/// the thread that takes it off: a queue that became pending, and a queue left waiting for a
/// future to poll it again (so that a thread takes over when that future stops draining it).
pub proof fn lemma_scheduled_queue_can_be_claimed(state: QueueState, has_jobs: bool)
    requires
        needs_schedule(state, has_jobs),
    ensures
        ready_to_run(if state == QueueState::Idle { QueueState::Pending } else { state }),
{
}

/// Finds the next queue that should be run: takes queues off the front of the schedule until
/// `claim` succeeds on one (it marks that queue as running) and returns it. Queues on which `claim`
/// fails are dropped from the schedule.
pub fn next_to_run<Q, F: Fn(&Q) -> bool>(schedule: &mut std::collections::VecDeque<Q>, claim: &F) -> (next: Option<Q>)
    requires
        forall|q: &Q| claim.requires((q,)),
    ensures
        final(schedule)@.len() <= old(schedule)@.len(),
        final(schedule)@ == old(schedule)@.skip(old(schedule)@.len() - final(schedule)@.len()),
        next is None ==> final(schedule)@.len() == 0,
        next is None ==> forall|i: int| 0 <= i < old(schedule)@.len() ==> claim.ensures((&old(schedule)@[i],), false),
        next is Some ==> {
            let taken = old(schedule)@.len() - final(schedule)@.len();
            &&& taken >= 1
            &&& next->0 == old(schedule)@[taken - 1]
            &&& claim.ensures((&old(schedule)@[taken - 1],), true)
            &&& forall|i: int| 0 <= i < taken - 1 ==> claim.ensures((&old(schedule)@[i],), false)
        },
{
    let ghost initial = schedule@;
    loop
        invariant
            forall|q: &Q| claim.requires((q,)),
            initial == old(schedule)@,
            schedule@.len() <= initial.len(),
            schedule@ == initial.skip(initial.len() - schedule@.len()),
            forall|i: int| 0 <= i < initial.len() - schedule@.len() ==> claim.ensures((&initial[i],), false),
        decreases schedule@.len(),
    {
        match schedule.pop_front() {
            None => {
                return None;
            },
            Some(q) => {
                assert(q == initial[initial.len() - schedule@.len() - 1]);
                if claim(&q) {
                    return Some(q);
                }
            },
        }
    }
}

/// Claims an idle queue for a job that runs straight away on the current thread. Returns false,
/// leaving the queue as it is, when the queue is busy in any way.
pub fn claim_idle_queue<J>(core: &mut JobQueueCore<J>) -> (claimed: bool)
    requires
        old(core).wf(),
    ensures
        final(core).wf(),
        same_history(*old(core), *final(core)),
        final(core).jobs() == old(core).jobs(),
        claimed == (old(core).spec_state() == QueueState::Idle),
        final(core).spec_state() == (if claimed { QueueState::Running } else { old(core).spec_state() }),
{
    match core.state() {
        QueueState::Idle => {
            core.set_state(QueueState::Running);
            true
        },
        _ => false,
    }
}

/// The scheduler's threads, each marked busy while it runs queues, and the maximum number of
/// threads the scheduler may spawn.
pub struct ThreadPool {
    busy: Vec<bool>,
    max_threads: usize,
}

/// Whether every thread of the pool is busy.
pub open spec fn all_busy(busy: Seq<bool>) -> bool {
    forall|i: int| 0 <= i < busy.len() ==> busy[i]
}

impl ThreadPool {
    /// One entry per thread, in the order the threads were spawned: true while it is busy.
    pub closed spec fn busy(&self) -> Seq<bool> {
        self.busy@
    }

    /// The maximum number of threads the scheduler may spawn by itself.
    pub closed spec fn max_threads(&self) -> usize {
        self.max_threads
    }

    /// A pool with no threads yet, which may grow to `max_threads` threads.
    pub fn new(max_threads: usize) -> (pool: ThreadPool)
        ensures
            pool.busy() == Seq::<bool>::empty(),
            pool.max_threads() == max_threads,
    {
        ThreadPool { busy: Vec::new(), max_threads }
    }

    /// The number of threads in the pool.
    pub fn thread_count(&self) -> (count: usize)
        ensures
            count == self.busy().len(),
    {
        self.busy.len()
    }

    /// Whether the thread with the given index is busy.
    pub fn is_busy(&self, thread: usize) -> (busy: bool)
        requires
            thread < self.busy().len(),
        ensures
            busy == self.busy()[thread as int],
    {
        self.busy[thread]
    }

    /// The maximum number of threads the scheduler may spawn by itself.
    pub fn get_max_threads(&self) -> (max_threads: usize)
        ensures
            max_threads == self.max_threads(),
    {
        self.max_threads
    }

    /// Changes the maximum number of threads (existing threads are not despawned by this).
    pub fn set_max_threads(&mut self, max_threads: usize)
        ensures
            final(self).max_threads() == max_threads,
            final(self).busy() == old(self).busy(),
    {
        self.max_threads = max_threads;
    }

    /// Adds a dormant thread to the pool, whatever the maximum.
    pub fn spawn_thread(&mut self)
        ensures
            final(self).busy() == old(self).busy().push(false),
            final(self).max_threads() == old(self).max_threads(),
    {
        self.busy.push(false);
    }

    /// If there are fewer threads than the maximum, adds a dormant thread. Returns whether it did.
    pub fn spawn_thread_if_less_than_maximum(&mut self) -> (spawned: bool)
        ensures
            spawned == (old(self).busy().len() < old(self).max_threads()),
            old(self).busy().len() <= old(self).max_threads() ==> final(self).busy().len() <= final(self).max_threads(),
            final(self).busy() == (if spawned { old(self).busy().push(false) } else { old(self).busy() }),
            final(self).max_threads() == old(self).max_threads(),
    {
        if self.busy.len() < self.max_threads {
            self.busy.push(false);
            true
        } else {
            false
        }
    }

    /// Finds the first thread that is not busy and marks it busy. Returns its index, or `None`
    /// when every thread is busy.
    pub fn schedule_dormant(&mut self) -> (thread: Option<usize>)
        ensures
            final(self).max_threads() == old(self).max_threads(),
            thread is None ==> all_busy(old(self).busy()) && final(self).busy() == old(self).busy(),
            thread is Some ==> {
                let i = thread->0 as int;
                &&& 0 <= i < old(self).busy().len()
                &&& !old(self).busy()[i]
                &&& forall|j: int| 0 <= j < i ==> old(self).busy()[j]
                &&& final(self).busy() == old(self).busy().update(i, true)
            },
    {
        let mut i: usize = 0;
        while i < self.busy.len()
            invariant
                self.max_threads == old(self).max_threads,
                self.busy@ == old(self).busy@,
                i <= self.busy@.len(),
                forall|j: int| 0 <= j < i ==> self.busy@[j],
            decreases self.busy@.len() - i,
        {
            if !self.busy[i] {
                self.busy.set(i, true);
                return Some(i);
            }
            i = i + 1;
        }
        None
    }

    /// Wakes a thread to run the schedule: the first dormant thread, or else a newly spawned one if
    /// the pool has fewer threads than the maximum. Returns the index of the thread, now busy (an
    /// index equal to the old number of threads is a thread that the caller has to spawn), or
    /// `None` when no thread can be had.
    pub fn schedule_thread(&mut self) -> (thread: Option<usize>)
        ensures
            final(self).max_threads() == old(self).max_threads(),
            old(self).busy().len() <= old(self).max_threads() ==> final(self).busy().len() <= final(self).max_threads(),
            thread is None ==> {
                &&& all_busy(old(self).busy())
                &&& old(self).busy().len() >= old(self).max_threads()
                &&& final(self).busy() == old(self).busy()
            },
            thread is Some ==> {
                let i = thread->0 as int;
                &&& 0 <= i <= old(self).busy().len()
                &&& forall|j: int| 0 <= j < i ==> old(self).busy()[j]
                &&& i < old(self).busy().len() ==> {
                    &&& !old(self).busy()[i]
                    &&& final(self).busy() == old(self).busy().update(i, true)
                }
                &&& i == old(self).busy().len() ==> {
                    &&& old(self).busy().len() < old(self).max_threads()
                    &&& final(self).busy() == old(self).busy().push(true)
                }
            },
    {
        match self.schedule_dormant() {
            Some(i) => Some(i),
            None => {
                if self.spawn_thread_if_less_than_maximum() {
                    assert(!self.busy@[self.busy@.len() - 1]);
                    self.schedule_dormant()
                } else {
                    None
                }
            },
        }
    }

    /// Marks a thread that found nothing left to run as dormant again.
    pub fn release(&mut self, thread: usize)
        requires
            thread < old(self).busy().len(),
        ensures
            final(self).busy() == old(self).busy().update(thread as int, false),
            final(self).max_threads() == old(self).max_threads(),
    {
        self.busy.set(thread, false);
    }

    /// Removes the most recently spawned threads while there are more than the maximum. Returns
    /// how many were removed: the caller despawns that many threads, the last ones first.
    pub fn despawn_threads_if_overloaded(&mut self) -> (removed: usize)
        ensures
            final(self).max_threads() == old(self).max_threads(),
            final(self).busy().len() <= final(self).max_threads(),
            old(self).busy().len() <= old(self).max_threads() ==> {
                &&& removed == 0
                &&& final(self).busy() == old(self).busy()
            },
            old(self).busy().len() > old(self).max_threads() ==> {
                &&& removed == old(self).busy().len() - old(self).max_threads()
                &&& final(self).busy() == old(self).busy().subrange(0, old(self).max_threads() as int)
            },
    {
        let mut removed: usize = 0;
        let initial_len: usize = self.busy.len();
        while self.busy.len() > self.max_threads
            invariant
                initial_len == old(self).busy@.len(),
                self.max_threads == old(self).max_threads,
                self.busy@.len() + removed == old(self).busy@.len(),
                old(self).busy@.len() <= old(self).max_threads ==> removed == 0,
                self.busy@.len() >= old(self).max_threads || old(self).busy@.len() <= old(self).max_threads,
                self.busy@ == old(self).busy@.subrange(0, self.busy@.len() as int),
            decreases self.busy@.len(),
        {
            removed = removed + 1;
            self.busy.pop();
        }
        removed
    }
}

} // verus!

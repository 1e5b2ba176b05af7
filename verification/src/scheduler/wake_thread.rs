//! What waking a queue does to its state when a job on it reported that it can make progress.
use vstd::prelude::*;
use super::queue_state::QueueState;
use super::job_queue::{JobQueueCore, state_after_pending_job, same_history};

verus! {

/// The state a queue moves to when a job on it is woken up: a queue waiting for a wake-up becomes
/// idle (to be rescheduled), a queue whose thread is parked is running again (the thread resumes
/// it once unparked), and a wake-up that arrives while the queue runs is recorded.
pub open spec fn state_after_wake(state: QueueState) -> QueueState {
    match state {
        QueueState::WaitingForWake => QueueState::Idle,
        QueueState::WaitingForUnpark => QueueState::Running,
        QueueState::Running => QueueState::AwokenWhileRunning,
        other => other,
    }
}

/// Moves a queue to the idle state if it was waiting for a wake-up, hands a queue whose thread is
/// parked back to that thread, and records a wake-up that arrives while it is still running. The
/// caller then unparks the thread that runs the queue.
pub fn wake_queue<J>(core: &mut JobQueueCore<J>)
    requires
        old(core).wf(),
    ensures
        final(core).wf(),
        same_history(*old(core), *final(core)),
        final(core).spec_state() == state_after_wake(old(core).spec_state()),
        final(core).jobs() == old(core).jobs(),
        old(core).spec_state() == QueueState::Running || old(core).spec_state()
            == QueueState::AwokenWhileRunning ==> final(core).spec_state() == QueueState::AwokenWhileRunning,
{
    let next = match core.state() {
        QueueState::WaitingForWake => QueueState::Idle,
        QueueState::WaitingForUnpark => QueueState::Running,
        QueueState::Running => QueueState::AwokenWhileRunning,
        other => other,
    };
    core.set_state(next);
}

/// The state a queue moves to when a job woken up belongs to a queue the scheduler's threads run in
/// the background: a queue waiting for a wake-up becomes idle (to be rescheduled) and a wake-up
/// that arrives while it runs is recorded. A queue whose thread is parked is left to that thread,
/// which only its own waker unparks.
pub open spec fn state_after_queue_wake(state: QueueState) -> QueueState {
    match state {
        QueueState::WaitingForWake => QueueState::Idle,
        QueueState::Running => QueueState::AwokenWhileRunning,
        other => other,
    }
}

/// What the waker of a queue drained in the background does to the queue's state; the caller then
/// reschedules the queue.
pub fn wake_scheduled_queue<J>(core: &mut JobQueueCore<J>)
    requires
        old(core).wf(),
    ensures
        final(core).wf(),
        same_history(*old(core), *final(core)),
        final(core).spec_state() == state_after_queue_wake(old(core).spec_state()),
        final(core).jobs() == old(core).jobs(),
        old(core).spec_state() == QueueState::Running || old(core).spec_state()
            == QueueState::AwokenWhileRunning ==> final(core).spec_state() == QueueState::AwokenWhileRunning,
{
    let next = match core.state() {
        QueueState::WaitingForWake => QueueState::Idle,
        QueueState::Running => QueueState::AwokenWhileRunning,
        other => other,
    };
    core.set_state(next);
}

/// A wake-up that arrives while a job is still running is not lost: when that job then returns
/// pending, the queue carries on running instead of waiting for a wake-up that already came.
pub proof fn lemma_wake_while_running_is_kept()
    ensures
        state_after_pending_job(state_after_wake(QueueState::Running)) == QueueState::Running,
        state_after_wake(state_after_pending_job(QueueState::Running)) == QueueState::Idle,
{
}

/// A thread that parked because its job returned pending is resumed by the job's wake-up: the
/// queue is running again, so the parked thread carries on once unparked. A wake-up that arrived
/// before it parked stops it from parking at all.
pub proof fn lemma_parked_runner_is_resumed_by_wake()
    ensures
        state_after_wake(QueueState::WaitingForUnpark) == QueueState::Running,
        state_after_wake(QueueState::WaitingForUnpark) != QueueState::WaitingForUnpark,
        state_after_wake(QueueState::Running) == QueueState::AwokenWhileRunning,
{
}

/// The state of a queue after `wakes` wake-ups, one after the other.
pub open spec fn state_after_wakes(state: QueueState, wakes: nat) -> QueueState
    decreases wakes,
{
    if wakes == 0 {
        state
    } else {
        state_after_wake(state_after_wakes(state, (wakes - 1) as nat))
    }
}

/// The state of a queue run in the background after `wakes` wake-ups, one after the other.
pub open spec fn state_after_queue_wakes(state: QueueState, wakes: nat) -> QueueState
    decreases wakes,
{
    if wakes == 0 {
        state
    } else {
        state_after_queue_wake(state_after_queue_wakes(state, (wakes - 1) as nat))
    }
}

/// No wake-up is lost while a queue runs on the calling thread: however many wake-ups (one or
/// more) arrive while its job is being polled, the wake-up stays recorded, and when the job then
/// returns pending the thread carries on running the queue instead of parking.
pub proof fn lemma_repeated_wakes_are_kept(state: QueueState, wakes: nat)
    requires
        state == QueueState::Running || state == QueueState::AwokenWhileRunning,
        wakes >= 1,
    ensures
        state_after_wakes(state, wakes) == QueueState::AwokenWhileRunning,
        state_after_pending_job(state_after_wakes(state, wakes)) == QueueState::Running,
    decreases wakes,
{
    if wakes > 1 {
        lemma_repeated_wakes_are_kept(state, (wakes - 1) as nat);
    } else {
        assert(state_after_wakes(state, 0) == state);
    }
    assert(state_after_wakes(state, wakes) == state_after_wake(state_after_wakes(state, (wakes - 1) as nat)));
}

/// No wake-up is lost while a queue runs in the background: however many wake-ups (one or more)
/// arrive while its job is being polled, the wake-up stays recorded, and when the job then
/// returns pending the thread carries on draining the queue instead of waiting for a wake-up.
pub proof fn lemma_repeated_queue_wakes_are_kept(state: QueueState, wakes: nat)
    requires
        state == QueueState::Running || state == QueueState::AwokenWhileRunning,
        wakes >= 1,
    ensures
        state_after_queue_wakes(state, wakes) == QueueState::AwokenWhileRunning,
        state_after_pending_job(state_after_queue_wakes(state, wakes)) == QueueState::Running,
    decreases wakes,
{
    if wakes > 1 {
        lemma_repeated_queue_wakes_are_kept(state, (wakes - 1) as nat);
    } else {
        assert(state_after_queue_wakes(state, 0) == state);
    }
    assert(state_after_queue_wakes(state, wakes) == state_after_queue_wake(state_after_queue_wakes(state, (wakes - 1) as nat)));
}

} // verus!

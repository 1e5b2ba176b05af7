use desync::scheduler::job_queue::JobQueueCore;
use desync::scheduler::queue_state::{FutureId, QueueState};
use desync::scheduler::wake_thread::{wake_queue, wake_scheduled_queue};
use desync::scheduler::scheduler_core::{claim_queue, queue_job, reschedule_queue};

fn running_core(jobs: &[u32]) -> JobQueueCore<u32> {
    let mut core = JobQueueCore::new();
    for job in jobs {
        core.push_back(*job);
    }
    core.set_state(QueueState::Running);
    core
}

#[test]
fn new_queue_is_idle_and_empty() {
    let core: JobQueueCore<u32> = JobQueueCore::new();
    assert_eq!(core.state(), QueueState::Idle);
    assert_eq!(core.len(), 0);
}

#[test]
fn jobs_are_dequeued_in_the_order_they_were_pushed() {
    let mut core = running_core(&[1, 2, 3]);
    assert_eq!(core.dequeue(), Some(1));
    assert_eq!(core.dequeue(), Some(2));
    assert_eq!(core.dequeue(), Some(3));
    assert_eq!(core.dequeue(), None);
}

#[test]
fn requeued_job_is_the_next_to_run() {
    let mut core = running_core(&[1, 2]);
    let job = core.dequeue().unwrap();
    core.requeue(job);
    assert_eq!(core.dequeue(), Some(1));
    assert_eq!(core.dequeue(), Some(2));
}

#[test]
fn waiting_queue_hands_out_no_job() {
    for state in [QueueState::WaitingForWake, QueueState::WaitingForUnpark, QueueState::WaitingForPoll(FutureId(3))] {
        let mut core = running_core(&[1]);
        core.set_state(state);
        assert_eq!(core.dequeue(), None);
        assert_eq!(core.len(), 1);
        assert_eq!(core.state(), state);
    }
}

#[test]
fn pending_job_makes_a_running_queue_wait_for_wake() {
    let mut core = running_core(&[1]);
    assert!(core.suspend_after_pending());
    assert_eq!(core.state(), QueueState::WaitingForWake);

    let mut awoken = running_core(&[1]);
    awoken.set_state(QueueState::AwokenWhileRunning);
    assert!(!awoken.suspend_after_pending());
    assert_eq!(awoken.state(), QueueState::Running);
}

#[test]
fn finish_draining_deactivates_an_empty_queue() {
    let mut empty = running_core(&[]);
    assert!(empty.finish_draining());
    assert_eq!(empty.state(), QueueState::Idle);

    let mut busy = running_core(&[4]);
    assert!(!busy.finish_draining());
    assert_eq!(busy.state(), QueueState::Running);

    let mut pending = running_core(&[4]);
    pending.set_state(QueueState::Pending);
    assert!(pending.finish_draining());
    assert_eq!(pending.state(), QueueState::Pending);
}

#[test]
fn synchronous_run_parks_unless_woken_meanwhile() {
    let mut core = running_core(&[1]);
    assert!(core.park_after_pending());
    assert_eq!(core.state(), QueueState::WaitingForUnpark);
    assert!(!core.resumes_after_park());

    // The job's wake-up hands the queue back to the parked thread
    wake_queue(&mut core);
    assert_eq!(core.state(), QueueState::Running);
    assert!(core.resumes_after_park());

    let mut awoken = running_core(&[1]);
    wake_queue(&mut awoken);
    assert_eq!(awoken.state(), QueueState::AwokenWhileRunning);
    assert!(!awoken.park_after_pending());
    assert_eq!(awoken.state(), QueueState::Running);
}

#[test]
fn wake_returns_a_waiting_queue_to_idle() {
    let mut core = running_core(&[1]);
    core.set_state(QueueState::WaitingForWake);
    wake_queue(&mut core);
    assert_eq!(core.state(), QueueState::Idle);

    let mut idle: JobQueueCore<u32> = JobQueueCore::new();
    wake_queue(&mut idle);
    assert_eq!(idle.state(), QueueState::Idle);
}

#[test]
fn reschedule_marks_idle_queue_with_jobs_pending() {
    let mut core: JobQueueCore<u32> = JobQueueCore::new();
    assert!(!reschedule_queue(&mut core));
    assert_eq!(core.state(), QueueState::Idle);

    core.push_back(5);
    assert!(reschedule_queue(&mut core));
    assert_eq!(core.state(), QueueState::Pending);

    // Already pending: not placed on the schedule twice
    assert!(!reschedule_queue(&mut core));

    let mut polled: JobQueueCore<u32> = JobQueueCore::new();
    polled.set_state(QueueState::WaitingForPoll(FutureId(1)));
    assert!(reschedule_queue(&mut polled));
    assert_eq!(polled.state(), QueueState::WaitingForPoll(FutureId(1)));
}

#[test]
fn claimed_queue_cannot_be_claimed_again() {
    let mut core: JobQueueCore<u32> = JobQueueCore::new();
    core.push_back(1);
    assert!(reschedule_queue(&mut core));
    assert!(claim_queue(&mut core));
    assert_eq!(core.state(), QueueState::Running);
    assert!(!claim_queue(&mut core));
    assert_eq!(core.state(), QueueState::Running);
}

#[test]
fn panicked_queue_takes_no_more_jobs() {
    let mut core = running_core(&[1]);
    core.set_state(QueueState::Panicked);
    assert_eq!(queue_job(&mut core, 2), Err(2));
    assert_eq!(core.len(), 1);
    assert_eq!(core.state(), QueueState::Panicked);
}

#[test]
fn queueing_a_job_schedules_an_idle_queue() {
    let mut idle: JobQueueCore<u32> = JobQueueCore::new();
    assert_eq!(queue_job(&mut idle, 1), Ok(true));
    assert_eq!(idle.state(), QueueState::Pending);
    assert_eq!(queue_job(&mut idle, 2), Ok(false));
    assert_eq!(idle.len(), 2);

    let mut running = running_core(&[]);
    assert_eq!(queue_job(&mut running, 1), Ok(false));
    assert_eq!(running.state(), QueueState::Running);

    let mut polled: JobQueueCore<u32> = JobQueueCore::new();
    polled.set_state(QueueState::WaitingForPoll(FutureId(2)));
    assert_eq!(queue_job(&mut polled, 1), Ok(true));
    assert_eq!(polled.state(), QueueState::WaitingForPoll(FutureId(2)));
}

#[test]
fn background_wake_leaves_a_parked_queue_to_its_thread() {
    let mut parked = running_core(&[1]);
    assert!(parked.park_after_pending());
    wake_scheduled_queue(&mut parked);
    assert_eq!(parked.state(), QueueState::WaitingForUnpark);

    let mut waiting = running_core(&[1]);
    waiting.set_state(QueueState::WaitingForWake);
    wake_scheduled_queue(&mut waiting);
    assert_eq!(waiting.state(), QueueState::Idle);

    let mut running = running_core(&[1]);
    wake_scheduled_queue(&mut running);
    assert_eq!(running.state(), QueueState::AwokenWhileRunning);
}

#[test]
fn requeued_job_is_resumed_before_later_jobs_start() {
    let mut core = running_core(&[1, 2]);
    let first = core.dequeue().unwrap();
    core.push_back(3);
    core.requeue(first);
    assert_eq!(core.dequeue(), Some(1));
    assert_eq!(core.dequeue(), Some(2));
    assert_eq!(core.dequeue(), Some(3));
}

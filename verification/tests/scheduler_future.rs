use desync::scheduler::job_queue::JobQueueCore;
use desync::scheduler::queue_state::{FutureId, QueueState};
use desync::scheduler::scheduler_future::{
    drain_job_returned_pending, drain_ran_dry, finish_drain_queue, poll_scheduler_future, DrainWakerState,
    FutureResultState, SchedulerAction, SchedulerFutureResult,
};
use futures::channel::oneshot::Canceled;

#[test]
fn result_state_is_taken_once() {
    let mut state = FutureResultState::Available(3);
    assert!(!state.is_none());
    assert_eq!(state.take(), Some(3));
    assert!(matches!(state, FutureResultState::ReturnedViaFuture));

    let mut empty: FutureResultState<i32> = FutureResultState::Empty;
    assert!(empty.is_none());
    assert_eq!(empty.take(), None);
    assert!(empty.is_none());
}

#[test]
fn signal_hands_back_the_waiting_waker() {
    let mut result: SchedulerFutureResult<i32, &str> = SchedulerFutureResult::new();
    result.waker = Some("poller");
    assert_eq!(result.signal(42), Some("poller"));
    assert!(result.waker.is_none());
    assert_eq!(result.result.take(), Some(Ok(42)));
}

#[test]
fn dropping_the_signaller_cancels_only_an_empty_result() {
    let mut result: SchedulerFutureResult<i32, &str> = SchedulerFutureResult::new();
    result.waker = Some("poller");
    assert_eq!(result.cancel(), Some("poller"));
    assert_eq!(result.result.take(), Some(Err(Canceled)));

    let mut signalled: SchedulerFutureResult<i32, &str> = SchedulerFutureResult::new();
    signalled.signal(42);
    assert_eq!(signalled.cancel(), None);
    assert_eq!(signalled.result.take(), Some(Ok(42)));
}

#[test]
fn drain_waker_keeps_an_early_wake() {
    let mut woken_first: DrainWakerState<&str> = DrainWakerState::new();
    assert_eq!(woken_first.wake(), None);
    assert_eq!(woken_first.wake_with("queue"), Some("queue"));

    let mut set_first: DrainWakerState<&str> = DrainWakerState::new();
    assert_eq!(set_first.wake_with("old"), None);
    assert_eq!(set_first.wake_with("new"), None);
    assert_eq!(set_first.wake(), Some("new"));
    assert_eq!(set_first.wake(), None);
}

#[test]
fn poll_returns_an_available_result() {
    let mut result: SchedulerFutureResult<i32, &str> = SchedulerFutureResult::new();
    result.signal(42);
    let mut core: JobQueueCore<u32> = JobQueueCore::new();
    let action = poll_scheduler_future(&mut result, &mut core, FutureId(0), "poller");
    assert!(matches!(action, SchedulerAction::ReturnValue(Ok(42))));
    assert_eq!(core.state(), QueueState::Idle);
}

#[test]
fn poll_claims_an_idle_queue_to_drain_it() {
    let mut result: SchedulerFutureResult<i32, &str> = SchedulerFutureResult::new();
    let mut core: JobQueueCore<u32> = JobQueueCore::new();
    let action = poll_scheduler_future(&mut result, &mut core, FutureId(0), "poller");
    assert!(matches!(action, SchedulerAction::DrainQueue));
    assert_eq!(core.state(), QueueState::Running);
    assert!(result.waker.is_none());
}

#[test]
fn poll_waits_for_a_queue_running_elsewhere() {
    let mut result: SchedulerFutureResult<i32, &str> = SchedulerFutureResult::new();
    let mut core: JobQueueCore<u32> = JobQueueCore::new();
    core.set_state(QueueState::WaitingForPoll(FutureId(1)));
    let action = poll_scheduler_future(&mut result, &mut core, FutureId(2), "poller");
    assert!(matches!(action, SchedulerAction::WaitForCompletion));
    assert_eq!(result.waker, Some("poller"));
    assert_eq!(core.state(), QueueState::WaitingForPoll(FutureId(1)));

    // The owning future resumes the queue
    let action = poll_scheduler_future(&mut result, &mut core, FutureId(1), "owner");
    assert!(matches!(action, SchedulerAction::DrainQueue));
    assert_eq!(core.state(), QueueState::Running);

    let mut panicked: JobQueueCore<u32> = JobQueueCore::new();
    panicked.set_state(QueueState::Panicked);
    let action = poll_scheduler_future(&mut result, &mut panicked, FutureId(1), "owner");
    assert!(matches!(action, SchedulerAction::Panic));
}

#[test]
fn pending_job_during_drain_waits_for_poll_or_wake() {
    let mut result: SchedulerFutureResult<i32, &str> = SchedulerFutureResult::new();
    let mut core: JobQueueCore<u32> = JobQueueCore::new();
    core.set_state(QueueState::Running);
    assert_eq!(drain_job_returned_pending(&mut core, 9, &mut result, FutureId(4)), None);
    assert_eq!(core.state(), QueueState::WaitingForPoll(FutureId(4)));
    assert_eq!(core.len(), 1);

    core.set_state(QueueState::Running);
    result.signal(42);
    let job = core.dequeue().unwrap();
    assert_eq!(drain_job_returned_pending(&mut core, job, &mut result, FutureId(4)), Some(Ok(42)));
    assert_eq!(core.state(), QueueState::WaitingForWake);
    assert_eq!(core.dequeue(), None);
}

#[test]
fn drain_hands_the_queue_back_when_done() {
    let mut result: SchedulerFutureResult<i32, &str> = SchedulerFutureResult::new();
    let mut core: JobQueueCore<u32> = JobQueueCore::new();
    core.set_state(QueueState::Running);
    assert!(!drain_ran_dry(&mut core, &mut result, "poller"));
    assert_eq!(core.state(), QueueState::Idle);
    assert_eq!(result.waker, Some("poller"));

    core.set_state(QueueState::Running);
    core.push_back(1);
    assert!(finish_drain_queue(&mut core));
    assert_eq!(core.state(), QueueState::Pending);
}

#[test]
fn returns_immediately_if_signaled() {
    let mut result: SchedulerFutureResult<i32, &str> = SchedulerFutureResult::new();
    let mut queue: JobQueueCore<u32> = JobQueueCore::new();

    result.signal(42);

    let polled = poll_scheduler_future(&mut result, &mut queue, FutureId(0), "poller");
    assert!(matches!(polled, SchedulerAction::ReturnValue(Ok(42))));
}

#[test]
fn cancels_when_dropped() {
    let mut result: SchedulerFutureResult<i32, &str> = SchedulerFutureResult::new();
    let mut queue: JobQueueCore<u32> = JobQueueCore::new();

    result.cancel();

    let polled = poll_scheduler_future(&mut result, &mut queue, FutureId(0), "poller");
    assert!(matches!(polled, SchedulerAction::ReturnValue(Err(Canceled))));
}

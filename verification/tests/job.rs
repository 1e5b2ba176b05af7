use desync::job::Job;
use desync::scheduler::scheduler_thread::wrap_fnonce;
use desync::future_job::{FutureJob, JobState};
use std::cell::Cell;
use std::sync::atomic::{AtomicUsize, Ordering};

#[test]
fn job_runs_its_action_once() {
    let count = AtomicUsize::new(0);
    let mut job = Job::new(|| {
        count.fetch_add(1, Ordering::SeqCst);
    });
    assert!(job.is_pending());
    job.run();
    assert!(!job.is_pending());
    assert_eq!(count.load(Ordering::SeqCst), 1);
}

#[test]
fn wrapped_job_is_pending_until_run() {
    let value = AtomicUsize::new(0);
    let mut wrapped = wrap_fnonce(|| value.store(42, Ordering::SeqCst));
    assert!(wrapped.is_pending());
    assert_eq!(value.load(Ordering::SeqCst), 0);
    wrapped.run();
    assert!(!wrapped.is_pending());
    assert_eq!(value.load(Ordering::SeqCst), 42);
}

#[test]
fn future_job_creates_its_future_on_first_run() {
    let created = Cell::new(0);
    let mut job = FutureJob::new(|| {
        created.set(created.get() + 1);
        17
    });
    assert!(!job.is_completed());
    let future = job.take_future();
    assert_eq!(future, 17);
    assert_eq!(created.get(), 1);
    assert!(job.is_completed());

    // A future that returned pending is kept, and handed out again without creating a new one
    job.wait_for(future);
    assert!(!job.is_completed());
    assert_eq!(job.take_future(), 17);
    assert_eq!(created.get(), 1);
    assert!(job.is_completed());
}

#[test]
fn job_state_take_moves_to_completed() {
    let mut state: JobState<fn() -> i32, i32> = JobState::WaitingForFuture(5);
    assert_eq!(state.take(), Some(5));
    assert_eq!(state.take(), None);
    assert!(matches!(state, JobState::Completed));

    fn make() -> i32 {
        9
    }
    let mut fresh: JobState<fn() -> i32, i32> = JobState::FutureNotCreated(make);
    assert_eq!(fresh.take(), Some(9));
    assert!(matches!(fresh, JobState::Completed));
}

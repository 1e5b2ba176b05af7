use desync::scheduler::{initial_max_threads, max_threads_for_cpus, QueueCore, QueueStatus, RunAction, MIN_THREADS};

fn running_queue(jobs: &[u32]) -> QueueCore<u32> {
    let mut core = QueueCore::new();
    for job in jobs {
        core.schedule_job(*job);
    }
    if core.state() == QueueStatus::Pending {
        assert!(core.claim());
    } else {
        assert_eq!(core.sync_action(), RunAction::Immediate);
    }
    assert_eq!(core.state(), QueueStatus::Running);
    core
}

#[test]
fn scheduling_on_idle_queue_makes_it_pending_once() {
    let mut core = QueueCore::new();
    assert!(core.schedule_job(1));
    assert_eq!(core.state(), QueueStatus::Pending);
    assert!(!core.schedule_job(2));
    assert_eq!(core.len(), 2);
}

#[test]
fn scheduled_jobs_run_in_order() {
    let mut core = running_queue(&[1, 2, 3]);
    assert_eq!(core.dequeue(), Some(1));
    assert_eq!(core.dequeue(), Some(2));
    assert_eq!(core.dequeue(), Some(3));
    assert_eq!(core.dequeue(), None);
    assert!(core.finish_draining());
    assert_eq!(core.state(), QueueStatus::Idle);
}

#[test]
fn claim_only_takes_pending_queues() {
    let mut core: QueueCore<u32> = QueueCore::new();
    assert!(!core.claim());
    core.schedule_job(1);
    assert!(core.claim());
    assert!(!core.claim());
}

#[test]
fn resume_before_suspend_leaves_queue_running() {
    let mut core = running_queue(&[1, 2]);
    assert!(!core.resume());
    core.begin_suspension();
    assert_eq!(core.state(), QueueStatus::Running);
    assert_eq!(core.dequeue(), Some(1));
    assert_eq!(core.dequeue(), Some(2));
}

#[test]
fn suspension_stops_dequeuing_until_resumed() {
    let mut core = running_queue(&[1, 2]);
    core.begin_suspension();
    assert_eq!(core.state(), QueueStatus::Suspending);
    assert_eq!(core.dequeue(), None);

    // The draining thread lets go of the queue, leaving its jobs for later
    assert!(core.finish_draining());
    assert_eq!(core.state(), QueueStatus::Suspended);
    assert_eq!(core.len(), 2);

    // Resuming hands the queue back to the scheduler
    assert!(core.resume());
    assert_eq!(core.state(), QueueStatus::Idle);
    assert!(core.reschedule());
    assert!(core.claim());
    assert_eq!(core.dequeue(), Some(1));
}

#[test]
fn resuming_a_suspending_queue_lets_it_run_on() {
    let mut core = running_queue(&[1, 2]);
    core.begin_suspension();
    assert!(!core.resume());
    assert_eq!(core.state(), QueueStatus::Running);
    assert_eq!(core.dequeue(), Some(1));
}

#[test]
fn suspended_queue_is_rescheduled_on_resume() {
    let mut core = running_queue(&[]);
    core.begin_suspension();
    assert!(core.finish_draining());
    assert_eq!(core.state(), QueueStatus::Suspended);
    core.schedule_job(7);
    assert_eq!(core.state(), QueueStatus::Suspended);
    assert!(core.resume());
    assert_eq!(core.state(), QueueStatus::Idle);
    assert!(core.reschedule());
    assert_eq!(core.state(), QueueStatus::Pending);
}

#[test]
fn two_suspensions_need_two_resumptions() {
    let mut core = running_queue(&[]);
    core.begin_suspension();
    core.begin_suspension();
    assert!(core.finish_draining());
    assert_eq!(core.state(), QueueStatus::Suspended);
    assert!(!core.resume());
    assert_eq!(core.state(), QueueStatus::Suspended);
    assert!(core.resume());
    assert_eq!(core.state(), QueueStatus::Idle);
}

#[test]
fn sync_action_follows_the_queue_state() {
    let mut idle: QueueCore<u32> = QueueCore::new();
    assert_eq!(idle.sync_action(), RunAction::Immediate);
    assert_eq!(idle.state(), QueueStatus::Running);
    assert_eq!(idle.sync_action(), RunAction::WaitForBackground);

    let mut pending: QueueCore<u32> = QueueCore::new();
    pending.schedule_job(1);
    assert_eq!(pending.sync_action(), RunAction::DrainOnThisThread);
    assert_eq!(pending.state(), QueueStatus::Running);

    let mut suspending = running_queue(&[]);
    suspending.begin_suspension();
    assert_eq!(suspending.sync_action(), RunAction::WaitForBackground);
    assert_eq!(suspending.state(), QueueStatus::Suspending);
}

#[test]
fn try_sync_runs_only_on_idle_queue() {
    let mut idle: QueueCore<u32> = QueueCore::new();
    assert!(idle.try_sync_action());
    assert_eq!(idle.state(), QueueStatus::Running);
    assert!(!idle.try_sync_action());

    let mut pending: QueueCore<u32> = QueueCore::new();
    pending.schedule_job(1);
    assert!(!pending.try_sync_action());
    assert_eq!(pending.state(), QueueStatus::Pending);
}

#[test]
fn synchronous_drain_waits_when_queue_suspends() {
    let mut core = running_queue(&[]);
    assert!(!core.suspend_if_requested());
    core.begin_suspension();
    assert!(core.suspend_if_requested());
    assert_eq!(core.state(), QueueStatus::Suspended);
}

#[test]
fn finishing_sync_releases_or_reschedules() {
    let mut empty = running_queue(&[]);
    assert!(!empty.finish_sync());
    assert_eq!(empty.state(), QueueStatus::Idle);

    let mut more = running_queue(&[]);
    more.push_background_job(3);
    assert!(more.finish_sync());
    assert_eq!(more.state(), QueueStatus::Pending);
}

#[test]
fn background_job_on_idle_queue_needs_reschedule() {
    let mut idle: QueueCore<u32> = QueueCore::new();
    assert!(idle.push_background_job(1));
    assert_eq!(idle.state(), QueueStatus::Idle);
    assert_eq!(idle.len(), 1);

    let mut running = running_queue(&[]);
    assert!(!running.push_background_job(1));
}

#[test]
fn max_threads_doubles_cpus_with_a_floor() {
    assert_eq!(max_threads_for_cpus(1), MIN_THREADS);
    assert_eq!(max_threads_for_cpus(4), 8);
    assert_eq!(max_threads_for_cpus(5), 10);
    assert_eq!(max_threads_for_cpus(16), 32);
    assert_eq!(max_threads_for_cpus(usize::MAX), usize::MAX);
}

#[test]
fn initial_max_threads_comes_from_the_cpu_count() {
    let expected = std::cmp::max(MIN_THREADS, num_cpus::get() * 2);
    assert_eq!(initial_max_threads(), expected);
    assert!(initial_max_threads() >= MIN_THREADS);
}

/// A job of the test queues: a value to send, or the job that `suspend` schedules.
#[derive(Clone, Copy, PartialEq, Debug)]
enum TestJob {
    Send(u32),
    Suspend,
}

/// Drains a queue as a scheduler thread does, returning the values sent by the jobs that ran.
fn drain(core: &mut QueueCore<TestJob>) -> Vec<u32> {
    let mut sent = vec![];
    loop {
        while let Some(job) = core.dequeue() {
            match job {
                TestJob::Send(value) => sent.push(value),
                TestJob::Suspend => core.begin_suspension(),
            }
        }
        if core.finish_draining() {
            return sent;
        }
    }
}

#[test]
fn can_resume_before_suspend() {
    let mut core = QueueCore::new();

    core.schedule_job(TestJob::Send(1));
    assert!(!core.resume());
    core.schedule_job(TestJob::Suspend);
    core.schedule_job(TestJob::Send(2));

    assert!(core.claim());
    assert_eq!(drain(&mut core), vec![1, 2]);
    assert_eq!(core.state(), QueueStatus::Idle);
}

#[test]
fn resume_before_suspend() {
    let mut core = QueueCore::new();

    core.schedule_job(TestJob::Send(1));
    core.resume();
    core.schedule_job(TestJob::Suspend);
    core.schedule_job(TestJob::Send(2));

    assert!(core.claim());
    assert_eq!(core.dequeue(), Some(TestJob::Send(1)));
    assert_eq!(core.dequeue(), Some(TestJob::Suspend));
    core.begin_suspension();
    assert_eq!(core.suspension_count(), 0);
    assert_eq!(core.state(), QueueStatus::Running);
    assert_eq!(core.dequeue(), Some(TestJob::Send(2)));
}

#[test]
fn suspended_queue_runs_later_jobs_after_resume() {
    let mut core = QueueCore::new();

    core.schedule_job(TestJob::Send(0));
    core.schedule_job(TestJob::Suspend);
    core.schedule_job(TestJob::Send(1));

    assert!(core.claim());
    assert_eq!(drain(&mut core), vec![0]);
    assert_eq!(core.state(), QueueStatus::Suspended);
    assert_eq!(core.len(), 1);

    assert!(core.resume());
    assert!(core.reschedule());
    assert!(core.claim());
    assert_eq!(drain(&mut core), vec![1]);
}


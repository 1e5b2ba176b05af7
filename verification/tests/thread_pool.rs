use desync::scheduler::scheduler_core::{next_to_run, ThreadPool};
use std::collections::VecDeque;

#[test]
fn threads_are_spawned_up_to_the_maximum() {
    let mut pool = ThreadPool::new(2);
    assert!(pool.spawn_thread_if_less_than_maximum());
    assert!(pool.spawn_thread_if_less_than_maximum());
    assert!(!pool.spawn_thread_if_less_than_maximum());
    assert_eq!(pool.thread_count(), 2);
}

#[test]
fn schedule_thread_prefers_dormant_threads() {
    let mut pool = ThreadPool::new(3);
    // No thread yet: a new one is spawned (index 0)
    assert_eq!(pool.schedule_thread(), Some(0));
    assert_eq!(pool.thread_count(), 1);
    assert!(pool.is_busy(0));
    assert_eq!(pool.schedule_thread(), Some(1));
    pool.release(0);
    assert!(!pool.is_busy(0));
    // The dormant thread is reused rather than spawning another
    assert_eq!(pool.schedule_thread(), Some(0));
    assert_eq!(pool.thread_count(), 2);
    assert_eq!(pool.schedule_thread(), Some(2));
    assert_eq!(pool.schedule_thread(), None);
    assert_eq!(pool.thread_count(), 3);
}

#[test]
fn schedule_dormant_finds_first_idle_thread() {
    let mut pool = ThreadPool::new(0);
    assert_eq!(pool.schedule_dormant(), None);
    pool.spawn_thread();
    pool.spawn_thread();
    assert_eq!(pool.schedule_dormant(), Some(0));
    assert_eq!(pool.schedule_dormant(), Some(1));
    assert_eq!(pool.schedule_dormant(), None);
}

#[test]
fn zero_threads_means_nothing_is_scheduled() {
    let mut pool = ThreadPool::new(0);
    assert_eq!(pool.schedule_thread(), None);
    assert_eq!(pool.thread_count(), 0);
}

#[test]
fn thread_management_will_despawn_extra_threads() {
    // Maximum of 10 threads, but we'll spawn 19 more
    let mut pool = ThreadPool::new(20);
    pool.set_max_threads(10);
    for _ in 1..20 {
        pool.spawn_thread();
    }
    assert_eq!(pool.get_max_threads(), 10);
    assert_eq!(pool.despawn_threads_if_overloaded(), 9);
    assert_eq!(pool.thread_count(), 10);
    assert_eq!(pool.despawn_threads_if_overloaded(), 0);
    assert_eq!(pool.thread_count(), 10);
}

#[test]
fn next_to_run_skips_queues_that_cannot_be_claimed() {
    let mut schedule: VecDeque<u32> = VecDeque::from(vec![1, 3, 4, 6]);
    let even = |q: &u32| *q % 2 == 0;
    assert_eq!(next_to_run(&mut schedule, &even), Some(4));
    assert_eq!(schedule, VecDeque::from(vec![6]));
    assert_eq!(next_to_run(&mut schedule, &even), Some(6));
    assert_eq!(next_to_run(&mut schedule, &even), None);
    assert!(schedule.is_empty());

    let mut unclaimable: VecDeque<u32> = VecDeque::from(vec![1, 3]);
    assert_eq!(next_to_run(&mut unclaimable, &even), None);
    assert!(unclaimable.is_empty());
}

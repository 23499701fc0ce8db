//! The scheduler's decisions, driven step by step.

use nekobox_core::queue::Queue;
use nekobox_core::queue::QueueData;
use nekobox_core::queue::QueueJob;
use nekobox_core::queue::ScheduleAction;

struct TestJob {
    id: usize,
}

impl QueueJob for TestJob {
    fn run(&mut self) {}
}

#[test]
fn empty_queue_idles_at_sampling_rate() {
    let mut queue: Queue<TestJob> = Queue::new();
    match queue.schedule_step(0) {
        ScheduleAction::Idle { sleep_ms } => assert_eq!(sleep_ms, 2000),
        _ => panic!("an empty queue must idle"),
    }
}

#[test]
fn fifo_dispatch_order() {
    let data = QueueData::with_policy(5, 0, 10, None, 0);
    let mut queue: Queue<TestJob> = Queue::with_data(data);
    for id in 0..5 {
        queue.push(TestJob { id });
    }
    let mut order: Vec<usize> = Vec::new();
    loop {
        match queue.schedule_step(0) {
            ScheduleAction::Dispatch { job, delay_ms } => {
                assert_eq!(delay_ms, 0);
                order.push(job.id);
            }
            ScheduleAction::Idle { .. } => break,
            _ => panic!("only dispatches and the final idle are expected"),
        }
    }
    assert_eq!(order, vec![0, 1, 2, 3, 4]);
}

#[test]
fn concurrency_bound_allows_one_overshoot() {
    // Jobs that never finish: the caller reports nothing as done.
    let data = QueueData::with_policy(2, 0, 10, None, 0);
    let mut queue: Queue<TestJob> = Queue::with_data(data);
    for id in 0..5 {
        queue.push(TestJob { id });
    }
    let mut running = 0usize;
    // With a bound of two the strict capacity check lets a third job out.
    for _ in 0..3 {
        match queue.schedule_step(0) {
            ScheduleAction::Dispatch { .. } => running += 1,
            _ => panic!("there is room, a job must be dispatched"),
        }
        assert!(running <= 2 + 1);
    }
    // From now on the scheduler only waits.
    match queue.schedule_step(0) {
        ScheduleAction::Saturated { sleep_ms } => assert_eq!(sleep_ms, 10),
        _ => panic!("a full running set must wait"),
    }
    match queue.schedule_step(0) {
        ScheduleAction::Saturated { .. } => {}
        _ => panic!("still full, still waiting"),
    }
}

#[test]
fn pruning_finished_jobs_frees_slots() {
    let data = QueueData::with_policy(1, 0, 10, None, 0);
    let mut queue: Queue<TestJob> = Queue::with_data(data);
    for id in 0..3 {
        queue.push(TestJob { id });
    }
    assert!(matches!(queue.schedule_step(0), ScheduleAction::Dispatch { .. }));
    assert!(matches!(queue.schedule_step(0), ScheduleAction::Dispatch { .. }));
    assert!(matches!(queue.schedule_step(0), ScheduleAction::Saturated { .. }));
    // Both running jobs finish; the slot opens again.
    assert!(matches!(queue.schedule_step(2), ScheduleAction::Dispatch { .. }));
}

#[test]
fn throttle_pauses_after_limit_and_resets() {
    // Limit 2: jobs number 0, 1 and 2 go out, then the pause is due.
    let data = QueueData::with_policy(10, 0, 5, Some(50), 2);
    let mut queue: Queue<TestJob> = Queue::with_data(data);
    for id in 0..8 {
        queue.push(TestJob { id });
    }
    let mut running = 0usize;
    let mut dispatched_before_pause = 0usize;
    loop {
        // Every job is instantaneous: whatever was running has finished.
        match queue.schedule_step(running) {
            ScheduleAction::Dispatch { .. } => {
                running = 1;
                dispatched_before_pause += 1;
            }
            ScheduleAction::Throttled { sleep_ms } => {
                assert_eq!(sleep_ms, 50);
                break;
            }
            _ => panic!("only dispatches up to the throttle pause"),
        }
    }
    assert_eq!(dispatched_before_pause, 3);
    // The counter starts over: three more dispatches before the next pause.
    let mut dispatched_after_pause = 0usize;
    loop {
        match queue.schedule_step(running) {
            ScheduleAction::Dispatch { .. } => {
                running = 1;
                dispatched_after_pause += 1;
            }
            ScheduleAction::Throttled { sleep_ms } => {
                assert_eq!(sleep_ms, 50);
                break;
            }
            _ => panic!("only dispatches up to the next throttle pause"),
        }
    }
    assert_eq!(dispatched_after_pause, 3);
}

#[test]
fn no_throttle_never_pauses() {
    let data = QueueData::with_policy(100, 0, 5, None, 0);
    let mut queue: Queue<TestJob> = Queue::with_data(data);
    for id in 0..20 {
        queue.push(TestJob { id });
    }
    let mut running = 0usize;
    for _ in 0..20 {
        assert!(matches!(queue.schedule_step(running), ScheduleAction::Dispatch { .. }));
        running = 1;
    }
    assert!(matches!(queue.schedule_step(running), ScheduleAction::Idle { .. }));
}

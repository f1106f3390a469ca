use coop_runtime::{PollOutcome, Scheduler, SchedulerError};

#[test]
fn ids_are_issued_in_order_from_zero() {
    let mut s: Scheduler<&str> = Scheduler::new();
    assert_eq!(s.issue_id(), Ok(0));
    assert_eq!(s.issue_id(), Ok(1));
    assert_eq!(s.issue_id(), Ok(2));
    assert!(!s.has_parked());
}

#[test]
fn immediately_ready_task_is_never_parked() {
    let mut s: Scheduler<&str> = Scheduler::new();
    let id = s.issue_id().unwrap();
    assert_eq!(s.settle(id, "done at once", PollOutcome::Ready), Ok(()));
    assert_eq!(s.parked_count(), 0);
    assert!(!s.has_parked());
}

#[test]
fn suspended_task_is_parked_and_resumed() {
    let mut s: Scheduler<&str> = Scheduler::new();
    let id = s.issue_id().unwrap();
    assert_eq!(s.settle(id, "t", PollOutcome::Pending), Ok(()));
    assert!(s.has_parked());
    assert_eq!(s.parked_count(), 1);
    assert_eq!(s.resume(id), Some("t"));
    assert!(!s.has_parked());
}

#[test]
fn stale_notification_is_absorbed() {
    let mut s: Scheduler<&str> = Scheduler::new();
    let a = s.issue_id().unwrap();
    let b = s.issue_id().unwrap();
    s.settle(a, "a", PollOutcome::Pending).unwrap();
    s.settle(b, "b", PollOutcome::Pending).unwrap();
    assert_eq!(s.resume(a), Some("a"));
    s.settle(a, "a", PollOutcome::Ready).unwrap();
    // a second wake of the finished task finds nothing and changes nothing
    assert_eq!(s.resume(a), None);
    assert_eq!(s.parked_count(), 1);
    // an identity never issued is stale too
    assert_eq!(s.resume(99), None);
    assert_eq!(s.parked_count(), 1);
}

#[test]
fn parking_twice_under_one_id_is_corruption() {
    let mut s: Scheduler<&str> = Scheduler::new();
    let id = s.issue_id().unwrap();
    s.settle(id, "first", PollOutcome::Pending).unwrap();
    assert_eq!(
        s.settle(id, "second", PollOutcome::Pending),
        Err(SchedulerError::RegistryCorruption)
    );
    assert_eq!(s.parked_count(), 1);
    assert_eq!(s.resume(id), Some("first"));
}

#[test]
fn parking_an_unissued_id_is_corruption() {
    let mut s: Scheduler<&str> = Scheduler::new();
    assert_eq!(
        s.settle(0, "x", PollOutcome::Pending),
        Err(SchedulerError::RegistryCorruption)
    );
    assert!(!s.has_parked());
    // a completed task is dropped whatever its identity
    assert_eq!(s.settle(7, "y", PollOutcome::Ready), Ok(()));
}

#[test]
fn ids_are_not_reused_after_completion() {
    let mut s: Scheduler<&str> = Scheduler::new();
    let a = s.issue_id().unwrap();
    s.settle(a, "a", PollOutcome::Ready).unwrap();
    let b = s.issue_id().unwrap();
    assert_ne!(a, b);
    assert_eq!(b, 1);
}

#[test]
fn repeated_wake_repolls_a_reparked_task() {
    let mut s: Scheduler<u32> = Scheduler::new();
    let id = s.issue_id().unwrap();
    s.settle(id, 0, PollOutcome::Pending).unwrap();
    // the same identity queued twice: both dequeues find the task
    let t = s.resume(id).unwrap();
    s.settle(id, t + 1, PollOutcome::Pending).unwrap();
    let t = s.resume(id).unwrap();
    assert_eq!(t, 1);
    s.settle(id, t, PollOutcome::Ready).unwrap();
    assert!(!s.has_parked());
}

/// Drives the scheduler through the readiness events of the demonstration
/// program: a main task joins two branches of timers (1000, 2000 then 3000,
/// 4000 ms) while a spawned task waits 5000 ms. Each event is the identity
/// woken and what its poll then reports.
#[test]
fn demonstration_event_sequence_drains_registry() {
    let mut s: Scheduler<&str> = Scheduler::new();
    let main_id = s.issue_id().unwrap();
    // the main task spawns the five-second task during its first poll
    let t5 = s.issue_id().unwrap();
    s.settle(t5, "t5", PollOutcome::Pending).unwrap();
    s.settle(main_id, "main", PollOutcome::Pending).unwrap();
    assert_eq!(s.parked_count(), 2);

    let events = [
        (main_id, PollOutcome::Pending), // 1000 ms
        (main_id, PollOutcome::Pending), // 2000 ms
        (main_id, PollOutcome::Pending), // 3000 ms
        (main_id, PollOutcome::Ready),   // 4000 ms, joined
        (t5, PollOutcome::Ready),        // 5000 ms
    ];
    let mut finished = Vec::new();
    for (id, outcome) in events {
        assert!(s.has_parked());
        let task = s.resume(id).expect("woken task is parked");
        if outcome == PollOutcome::Ready {
            finished.push(task);
        }
        s.settle(id, task, outcome).unwrap();
    }
    assert_eq!(finished, vec!["main", "t5"]);
    assert!(!s.has_parked());
}

use coop_runtime::MpscWaker;
use std::sync::mpsc::channel;

#[test]
fn wake_queues_the_bound_identity() {
    let (tx, rx) = channel();
    let w = MpscWaker::new(4, tx);
    assert_eq!(w.task_id(), 4);
    assert_eq!(w.wake(), Ok(()));
    assert_eq!(rx.try_recv(), Ok(4));
    assert!(rx.try_recv().is_err());
}

#[test]
fn duplicate_wakes_are_delivered_twice() {
    let (tx, rx) = channel();
    let a = MpscWaker::new(7, tx.clone());
    let b = MpscWaker::new(7, tx);
    assert_eq!(a.wake(), Ok(()));
    assert_eq!(b.wake(), Ok(()));
    assert_eq!(rx.try_recv(), Ok(7));
    assert_eq!(rx.try_recv(), Ok(7));
}

#[test]
fn wake_after_scheduler_is_gone_is_not_delivered() {
    let (tx, rx) = channel();
    let w = MpscWaker::new(9, tx);
    drop(rx);
    assert_eq!(w.wake(), Err(9));
}

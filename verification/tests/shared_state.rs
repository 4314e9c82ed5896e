use fdpoll::monitor::{Monitor, Phase, Wakeup};

/// Brings the worker into the kernel.
fn enter(monitor: &mut Monitor<u8>) {
    assert_eq!(monitor.acquire(), Wakeup::Run);
    assert!(monitor.start());
}

#[test]
fn worker_blocks_without_a_permit() {
    let mut monitor = Monitor::<u8>::new(4);
    assert_eq!(monitor.acquire(), Wakeup::Blocked);
    assert_eq!(monitor.phase(), Phase::Parked);
    assert_eq!(monitor.max(), 4);
}

#[test]
fn each_accepted_wait_gives_one_round() {
    let mut monitor = Monitor::<u8>::new(4);
    assert_eq!(monitor.wait(), Ok(()));
    assert!(monitor.running());
    assert_eq!(monitor.wait(), Err(()));
    assert!(monitor.events().is_err());
    assert_eq!(monitor.permits(), 1);
    enter(&mut monitor);
    assert_eq!(monitor.wait(), Err(()));
    assert!(monitor.polled(1, vec![7, 8]));
    assert!(monitor.locked());
    assert!(!monitor.running());
    assert_eq!(monitor.wait(), Ok(()));
    assert_eq!(monitor.wait(), Err(()));
    monitor.finish();
    assert_eq!(monitor.permits(), 1);
    enter(&mut monitor);
    assert!(!monitor.polled(-1, vec![]));
    assert_eq!(monitor.acquire(), Wakeup::Blocked);
    assert_eq!(monitor.wait(), Ok(()));
    enter(&mut monitor);
    assert!(monitor.polled(0, vec![]));
    monitor.discard();
    assert_eq!(monitor.phase(), Phase::Discarding);
    monitor.finish();
    assert_eq!(monitor.acquire(), Wakeup::Blocked);
}

#[test]
fn stored_events_are_those_of_the_last_wait() {
    let mut monitor = Monitor::<u8>::new(3);
    let events = monitor.events().unwrap();
    assert_eq!(events.slice(), &[]);
    monitor.release(events);
    for round in [vec![1, 2, 3], vec![4], vec![]] {
        monitor.wait().unwrap();
        enter(&mut monitor);
        let mut buf = round.clone();
        buf.push(99);
        assert!(monitor.polled(round.len() as i32, buf));
        monitor.finish();
        let events = monitor.events().unwrap();
        assert_eq!(events.slice(), &round[..]);
        monitor.release(events);
    }
}

#[test]
fn worker_holds_back_while_events_are_in_use() {
    let mut monitor = Monitor::<u8>::new(3);
    monitor.wait().unwrap();
    enter(&mut monitor);
    monitor.polled(2, vec![1, 2]);
    monitor.finish();

    let first = monitor.events().unwrap();
    let second = monitor.events().unwrap();
    assert_eq!(monitor.readers(), 2);
    monitor.wait().unwrap();
    assert_eq!(monitor.acquire(), Wakeup::Run);
    assert!(monitor.running());
    assert!(!monitor.start());
    monitor.release(first);
    assert!(!monitor.start());
    assert_eq!(second.slice(), &[1, 2]);
    monitor.release(second);
    assert!(monitor.start());
    assert_eq!(monitor.phase(), Phase::Polling);
}

#[test]
fn dropped_set_lets_its_worker_leave_after_the_round() {
    let mut monitor = Monitor::<u8>::new(3);
    monitor.wait().unwrap();
    enter(&mut monitor);
    monitor.stop();
    assert!(monitor.polled(1, vec![1]));
    monitor.finish();
    assert_eq!(monitor.acquire(), Wakeup::Exit);
    assert_eq!(monitor.phase(), Phase::Exited);
}

#[test]
fn dropped_set_beats_pending_waits() {
    let mut monitor = Monitor::<u8>::new(3);
    monitor.wait().unwrap();
    monitor.stop();
    assert_eq!(monitor.permits(), 2);
    assert_eq!(monitor.acquire(), Wakeup::Exit);
    assert_eq!(monitor.permits(), 1);
}

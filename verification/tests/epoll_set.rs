use fdpoll::epoll::{
    epoll_data, epoll_event, Ctl, Event, EventfdCall, FDPoll, Polled, ReadCall, WaitCall,
    WriteCall,
};
use fdpoll::monitor::{Phase, Wakeup};
use fdpoll::types::{Error, Type};

/// A set with `epoll` descriptor 3 and abort descriptor 4.
fn epoll_set(max: usize) -> FDPoll {
    let abort = FDPoll::new(max).created(3).unwrap();
    let watch = abort.opened(4).unwrap();
    watch.registered(0).unwrap()
}

fn epoll_found(fd: u32, events: u32) -> Event {
    epoll_event { events, data: epoll_data { data: fd as u64 } }
}

/// Brings the worker into the kernel.
fn epoll_begin(set: &mut FDPoll) -> WaitCall {
    assert_eq!(set.wait(), Ok(()));
    assert_eq!(set.acquire(), Wakeup::Run);
    set.start().unwrap()
}

#[test]
fn epoll_set_is_made_in_three_calls() {
    let queue = FDPoll::new(10);
    assert_eq!(queue.request(), 0);
    let abort = queue.created(3).unwrap();
    assert_eq!(abort.request(), EventfdCall { initval: 0, flags: libc::EFD_NONBLOCK });
    let watch = abort.opened(4).unwrap();
    assert_eq!(
        watch.request(),
        Ctl { epfd: 3, op: libc::EPOLL_CTL_ADD, fd: 4, event: Some(epoll_found(4, 1)) }
    );
    let set = watch.registered(0).unwrap();
    assert!(!set.running());
    assert!(!set.locked());
    assert_eq!(set.phase(), Phase::Parked);
    assert_eq!(set.permits(), 0);
    assert_eq!(set.readers(), 0);
    assert_eq!(set.max(), 10);
}

#[test]
fn epoll_set_that_fails_closes_what_it_opened() {
    let failed = FDPoll::new(1).created(-1).unwrap_err();
    assert_eq!((failed.error, failed.close), (Error::Resources, vec![]));

    let failed = FDPoll::new(1).created(3).unwrap().opened(-1).unwrap_err();
    assert_eq!((failed.error, failed.close), (Error::Resources, vec![3]));

    let watch = FDPoll::new(1).created(3).unwrap().opened(4).unwrap();
    let failed = watch.registered(-1).unwrap_err();
    assert_eq!((failed.error, failed.close), (Error::Resources, vec![4, 3]));
}

#[test]
fn epoll_input_on_stdin_is_readable_and_not_writable() {
    let mut set = epoll_set(3);
    let ctl = set.add(0, Type::Read).unwrap();
    assert_eq!(ctl, Ctl { epfd: 3, op: 1, fd: 0, event: Some(epoll_found(0, 1)) });
    assert_eq!(FDPoll::added(0, 0), Ok(()));

    let call = epoll_begin(&mut set);
    assert_eq!(call, WaitCall { epfd: 3, maxevents: 3, timeout: -1 });
    let found = Event { events: libc::EPOLLIN as u32, data: ctl.event.unwrap().data };
    let next = set.polled(1, 0, vec![found, epoll_found(7, 4), epoll_found(8, 4)]);
    assert_eq!(next, Polled::Drain(ReadCall { fd: 4, len: 8 }));
    assert_eq!(set.drained(-1), Some(Ok(())));

    let events = set.events().unwrap();
    assert_eq!(events.slice().len(), 1);
    let e = events.slice()[0];
    assert_eq!((e.fd(), e.read(), e.write()), (0, true, false));
    set.release(events);
    assert_eq!(set.wait(), Ok(()));
}

#[test]
fn epoll_watch_types_become_bits() {
    let set = epoll_set(3);
    let bits = |ty| set.add(5, ty).unwrap().event.unwrap().events;
    assert_eq!(bits(Type::Read), libc::EPOLLIN as u32);
    assert_eq!(bits(Type::Write), libc::EPOLLOUT as u32);
    assert_eq!(bits(Type::ReadWrite), (libc::EPOLLIN | libc::EPOLLOUT) as u32);
    for ty in [Type::Read, Type::Write, Type::ReadWrite] {
        let e = set.modify(5, ty).unwrap().event.unwrap();
        assert_eq!(e.fd(), 5);
        assert_eq!(e.read(), ty != Type::Write);
        assert_eq!(e.write(), ty != Type::Read);
    }
}

#[test]
fn epoll_other_bits_are_neither_read_nor_write() {
    let e = epoll_found(9, (libc::EPOLLERR | libc::EPOLLHUP) as u32);
    assert!(!e.read());
    assert!(!e.write());
    assert_eq!(e.fd(), 9);
}

#[test]
fn epoll_data_keeps_the_descriptor_in_its_lower_half() {
    let mut data = epoll_data { data: 0x1234_5678_9abc_def0 };
    assert_eq!(data.fd(), 0x9abc_def0u32 as i32);
    data.set_fd(-1);
    assert_eq!(data, epoll_data { data: 0x1234_5678_ffff_ffff });
    assert_eq!(data.fd(), -1);
    data.set_fd(77);
    assert_eq!(data, epoll_data { data: 0x1234_5678_0000_004d });
    assert_eq!(data.fd(), 77);
}

#[test]
fn epoll_modify_and_delete_make_their_calls() {
    let set = epoll_set(3);
    assert_eq!(
        set.modify(6, Type::Write),
        Ok(Ctl { epfd: 3, op: libc::EPOLL_CTL_MOD, fd: 6, event: Some(epoll_found(6, 4)) })
    );
    assert_eq!(
        set.delete(6),
        Ok(Ctl { epfd: 3, op: libc::EPOLL_CTL_DEL, fd: 6, event: None })
    );
    assert_eq!(set.add(-1, Type::Read).unwrap().event.unwrap().data.data, 0xffff_ffff);
}

#[test]
fn epoll_add_reports_each_error() {
    assert_eq!(FDPoll::added(0, libc::EBADF), Ok(()));
    assert_eq!(FDPoll::added(-1, libc::EBADF), Err(Error::BadFD));
    assert_eq!(FDPoll::added(-1, libc::EEXIST), Err(Error::Exists));
    assert_eq!(FDPoll::added(-1, libc::EPERM), Err(Error::Unsupported));
    assert_eq!(FDPoll::added(-1, libc::ENOENT), Err(Error::Resources));
    assert_eq!(FDPoll::added(-1, libc::ENOMEM), Err(Error::Resources));
}

#[test]
fn epoll_modify_and_delete_report_each_error() {
    assert_eq!(FDPoll::changed(0, libc::ENOENT), Ok(()));
    assert_eq!(FDPoll::changed(-1, libc::EBADF), Err(Error::BadFD));
    assert_eq!(FDPoll::changed(-1, libc::ENOENT), Err(Error::DoesntExist));
    assert_eq!(FDPoll::changed(-1, libc::EEXIST), Err(Error::Resources));
    assert_eq!(FDPoll::changed(-1, libc::EPERM), Err(Error::Resources));
}

#[test]
fn epoll_requests_are_refused_while_waiting() {
    let mut set = epoll_set(3);
    assert_eq!(set.abort(), Err(()));
    assert!(set.add(5, Type::Read).is_ok());
    assert_eq!(set.wait(), Ok(()));
    for phase in [Phase::Parked, Phase::Starting, Phase::Polling] {
        if phase == Phase::Starting {
            assert_eq!(set.acquire(), Wakeup::Run);
        }
        if phase == Phase::Polling {
            assert!(set.start().is_some());
        }
        assert_eq!(set.phase(), phase);
        assert!(set.running());
        assert_eq!(set.wait(), Err(()));
        assert!(set.events().is_err());
        assert_eq!(set.add(5, Type::Read), Err(Error::Waiting));
        assert_eq!(set.modify(5, Type::Read), Err(Error::Waiting));
        assert_eq!(set.delete(5), Err(Error::Waiting));
        assert_eq!(set.abort(), Ok(WriteCall { fd: 4, value: 1 }));
        assert_eq!(set.permits(), if phase == Phase::Parked { 1 } else { 0 });
        assert_eq!(set.readers(), 0);
    }
}

#[test]
fn epoll_abort_ends_the_wait_without_a_message() {
    let mut set = epoll_set(3);
    epoll_begin(&mut set);
    assert_eq!(set.abort(), Ok(WriteCall { fd: 4, value: 1 }));
    let next = set.polled(1, 0, vec![epoll_found(4, 1)]);
    assert_eq!(next, Polled::Drain(ReadCall { fd: 4, len: 8 }));
    assert!(!set.running());
    assert!(set.locked());
    assert_eq!(set.drained(8), None);
    assert!(!set.locked());
    assert_eq!(set.events().unwrap().slice(), &[epoll_found(4, 1)]);
    assert_eq!(set.abort(), Err(()));
}

#[test]
fn epoll_interrupted_wait_reports_a_signal() {
    let mut set = epoll_set(3);
    epoll_begin(&mut set);
    set.polled(2, 0, vec![epoll_found(5, 1), epoll_found(6, 4)]);
    assert_eq!(set.drained(0), Some(Ok(())));
    let events = set.events().unwrap();
    assert_eq!(events.slice(), &[epoll_found(5, 1), epoll_found(6, 4)]);
    set.release(events);

    epoll_begin(&mut set);
    assert_eq!(set.polled(-1, libc::EINTR, vec![]), Polled::Notify(Err(Error::Signal)));
    assert_eq!(set.phase(), Phase::Parked);
    assert_eq!(set.events().unwrap().slice(), &[]);
}

#[test]
fn epoll_failed_wait_reports_resources() {
    // A limit of 0 is an invalid argument to the kernel.
    let mut set = epoll_set(0);
    assert_eq!(epoll_begin(&mut set).maxevents, 0);
    assert_eq!(
        set.polled(-1, libc::EINVAL, vec![]),
        Polled::Notify(Err(Error::Resources))
    );
    assert_eq!(set.phase(), Phase::Parked);
    assert!(!set.running());
}

#[test]
fn epoll_pending_wait_can_be_aborted() {
    let mut set = epoll_set(3);
    set.wait().unwrap();
    assert_eq!(set.abort(), Ok(WriteCall { fd: 4, value: 1 }));
    assert_eq!(set.acquire(), Wakeup::Run);
    assert!(set.start().is_some());
    set.polled(1, 0, vec![epoll_found(4, 1)]);
    assert_eq!(set.drained(8), None);
    assert!(!set.running());
}

#[test]
fn epoll_wait_ends_when_the_kernel_answers() {
    let mut set = epoll_set(3);
    epoll_begin(&mut set);
    set.polled(1, 0, vec![epoll_found(5, 1)]);
    assert!(!set.running());
    assert_eq!(set.abort(), Err(()));
    // The next wait is accepted while the worker still looks into the abort descriptor.
    assert_eq!(set.wait(), Ok(()));
    assert!(set.running());
    assert_eq!(set.drained(-1), Some(Ok(())));
    assert_eq!(set.abort(), Ok(WriteCall { fd: 4, value: 1 }));
    assert_eq!(set.acquire(), Wakeup::Run);
}

#[test]
fn epoll_events_can_be_read_twice() {
    let mut set = epoll_set(3);
    epoll_begin(&mut set);
    set.polled(1, 0, vec![epoll_found(5, 1)]);
    set.drained(0);
    let first = set.events().unwrap();
    assert!(set.add(6, Type::Read).is_ok());
    assert!(set.delete(5).is_ok());
    assert_eq!(set.abort(), Err(()));
    let second = set.events().unwrap();
    assert_eq!(first.slice(), second.slice());
    assert_eq!(second.slice(), &[epoll_found(5, 1)]);
}

#[test]
fn epoll_limit_is_handed_to_the_kernel_as_a_c_int() {
    assert_eq!(epoll_begin(&mut epoll_set(0)).maxevents, 0);
    assert_eq!(epoll_begin(&mut epoll_set(0x7fff_ffff)).maxevents, 0x7fff_ffff);
    assert_eq!(epoll_begin(&mut epoll_set(0x1_0000_0005)).maxevents, 5);
    assert_eq!(epoll_begin(&mut epoll_set(0x8000_0000)).maxevents, i32::MIN);
}

#[test]
fn epoll_dropped_set_closes_its_descriptors() {
    let mut set = epoll_set(3);
    assert_eq!(set.shut_down(), vec![3, 4]);
    assert_eq!(set.acquire(), Wakeup::Exit);
    assert_eq!(set.phase(), Phase::Exited);
}

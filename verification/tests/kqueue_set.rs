use fdpoll::kqueue::{
    kevent, AddWatch, Call, Drained, Event, FDPoll, ModifyWatch, Os, Polled, ReadCall,
    WriteCall,
};
use fdpoll::monitor::{Phase, Wakeup};
use fdpoll::types::{Error, Type};

/// A set with queue 3 and the abort pipe 4, 5.
fn kqueue_set(max: usize) -> FDPoll {
    let abort = FDPoll::new(max).created(3).unwrap();
    let watch = abort.opened(0, 4, 5).unwrap();
    watch.registered(0).unwrap()
}

fn kqueue_event(ident: usize, filter: i16, flags: i16) -> Event {
    kevent { ident, filter, flags, fflags: 0, data: 0, udata: 0 }
}

/// The call that makes one change.
fn kqueue_call(ident: usize, filter: i16, flags: i16) -> Call {
    Call { kq: 3, changes: vec![kqueue_event(ident, filter, flags)], nevents: 0 }
}

/// The last step of adding a descriptor that has no filter.
fn kqueue_fresh(set: &FDPoll, fd: i32, ty: Type) -> AddWatch {
    let step = set.add(fd, ty).unwrap().searched(-1, libc::ENOENT).unwrap();
    step.searched(-1, libc::ENOENT).unwrap()
}

/// Brings the worker into the kernel.
fn kqueue_begin(set: &mut FDPoll) -> Call {
    assert_eq!(set.wait(), Ok(()));
    assert_eq!(set.acquire(), Wakeup::Run);
    set.start().unwrap()
}

#[test]
fn kqueue_set_is_made_in_three_calls() {
    let abort = FDPoll::new(7).created(3).unwrap();
    assert_eq!(abort.request(Os::Linux), 2048);
    assert_eq!(abort.request(Os::Bsd), 4);
    let watch = abort.opened(0, 4, 5).unwrap();
    assert_eq!(
        watch.request(),
        Call { kq: 3, changes: vec![kqueue_event(4, -1, 1)], nevents: 0 }
    );
    let set = watch.registered(0).unwrap();
    assert!(!set.running());
    assert_eq!(set.phase(), Phase::Parked);
    assert_eq!((set.permits(), set.readers(), set.max()), (0, 0, 7));
}

#[test]
fn kqueue_set_that_fails_closes_what_it_opened() {
    let failed = FDPoll::new(1).created(-1).unwrap_err();
    assert_eq!((failed.error, failed.close), (Error::Resources, vec![]));

    let failed = FDPoll::new(1).created(3).unwrap().opened(-1, 0, 0).unwrap_err();
    assert_eq!((failed.error, failed.close), (Error::Resources, vec![3]));

    let watch = FDPoll::new(1).created(3).unwrap().opened(0, 4, 5).unwrap();
    let failed = watch.registered(-1).unwrap_err();
    assert_eq!((failed.error, failed.close), (Error::Resources, vec![5, 4, 3]));
}

#[test]
fn kqueue_input_on_stdin_is_readable_and_not_writable() {
    let mut set = kqueue_set(3);
    let step = kqueue_fresh(&set, 0, Type::Read);
    assert_eq!(step.request(), kqueue_call(0, -1, 1));
    assert_eq!(step.added(0, 0), Ok(()));

    assert_eq!(kqueue_begin(&mut set), Call { kq: 3, changes: vec![], nevents: 3 });
    let found = kqueue_event(0, -1, 0);
    let next = set.polled(1, 0, vec![found, kqueue_event(9, -2, 0)]);
    assert_eq!(next, Polled::Drain(ReadCall { fd: 4, len: 8 }));
    assert_eq!(set.drained(-1), Drained::Notify(Ok(())));

    let events = set.events().unwrap();
    assert_eq!(events.slice().len(), 1);
    let e = events.slice()[0];
    assert_eq!((e.fd(), e.read(), e.write()), (0, true, false));
    set.release(events);
}

#[test]
fn kqueue_watch_types_become_filters() {
    let set = kqueue_set(3);
    let read = kqueue_event(6, -1, 1);
    let write = kqueue_event(6, -2, 1);
    let changes = |ty| kqueue_fresh(&set, 6, ty).request().changes;
    assert_eq!(changes(Type::Read), vec![read]);
    assert_eq!(changes(Type::Write), vec![write]);
    assert_eq!(changes(Type::ReadWrite), vec![read, write]);
    assert!(write.write() && !write.read());
    assert!(read.read() && !read.write());
    assert!(!kqueue_event(6, -3, 0).read() && !kqueue_event(6, -3, 0).write());
}

#[test]
fn kqueue_identifier_names_the_descriptor() {
    let set = kqueue_set(3);
    for fd in [0, 1, i32::MAX, -1, i32::MIN] {
        let change = kqueue_fresh(&set, fd, Type::Write).request().changes[0];
        assert_eq!(change.ident, fd as usize);
        assert_eq!(change.fd(), fd);
    }
    assert_eq!(kqueue_event(0x1_0000_0007, -1, 0).fd(), 7);
}

#[test]
fn kqueue_add_looks_for_both_filters() {
    let set = kqueue_set(3);
    let step = set.add(6, Type::Write).unwrap();
    assert_eq!(step.request(), kqueue_call(6, -1, 4));
    let step = step.searched(-1, libc::ENOENT).unwrap();
    assert_eq!(step.request(), kqueue_call(6, -2, 4));
    let step = step.searched(-1, libc::ENOENT).unwrap();
    assert_eq!(step, AddWatch { kq: 3, fd: 6, ty: Type::Write });
    assert_eq!(step.request(), kqueue_call(6, -2, 1));
    assert_eq!(step.added(0, 0), Ok(()));
}

#[test]
fn kqueue_add_of_a_known_descriptor_says_exists() {
    let set = kqueue_set(3);
    assert_eq!(set.add(0, Type::Read).unwrap().searched(0, 0), Err(Error::Exists));
    let step = set.add(0, Type::Read).unwrap().searched(-1, libc::ENOENT).unwrap();
    assert_eq!(step.searched(0, 0), Err(Error::Exists));
}

#[test]
fn kqueue_add_reports_each_error() {
    let set = kqueue_set(3);
    for (err, error) in [
        (libc::EBADF, Error::BadFD),
        (libc::EACCES, Error::NoPermission),
        (libc::ENOMEM, Error::Resources),
    ] {
        assert_eq!(set.add(6, Type::Read).unwrap().searched(-1, err), Err(error));
        let step = set.add(6, Type::Read).unwrap().searched(-1, libc::ENOENT).unwrap();
        assert_eq!(step.searched(-1, err), Err(error));
        assert_eq!(kqueue_fresh(&set, 6, Type::Read).added(-1, err), Err(error));
    }
    assert_eq!(kqueue_fresh(&set, 6, Type::Read).added(0, libc::EBADF), Ok(()));
    assert_eq!(
        kqueue_fresh(&set, 6, Type::Read).added(-1, libc::ENOENT),
        Err(Error::Resources)
    );
}

/// The step of modifying descriptor 6 that adds its new filters.
fn kqueue_known(set: &FDPoll, ty: Type) -> ModifyWatch {
    set.modify(6, ty).unwrap().searched(0, 0).unwrap().searched(0, 0).unwrap()
}

#[test]
fn kqueue_modify_adds_before_it_removes() {
    let set = kqueue_set(3);
    for (read, write) in [(true, true), (true, false), (false, true)] {
        let answer = |has| if has { (0, 0) } else { (-1, libc::ENOENT) };
        let step = set.modify(6, Type::Read).unwrap();
        assert_eq!(step.request(), kqueue_call(6, -1, 4));
        let (r, err) = answer(read);
        let step = step.searched(r, err).unwrap();
        assert_eq!(step.request(), kqueue_call(6, -2, 4));
        let (r, err) = answer(write);
        let step = step.searched(r, err).unwrap();
        assert_eq!(step.request(), kqueue_call(6, -1, 1));
        let step = step.added(0, 0).unwrap().unwrap();
        assert_eq!(step.request(), kqueue_call(6, -2, 2));
        let (r, err) = answer(write);
        assert_eq!(step.removed(r, err), Ok(()));
    }
}

#[test]
fn kqueue_modify_removes_what_the_type_leaves_out() {
    let set = kqueue_set(3);
    let step = kqueue_known(&set, Type::Write);
    assert_eq!(step.request(), kqueue_call(6, -2, 1));
    let step = step.added(0, 0).unwrap().unwrap();
    assert_eq!(step.request(), kqueue_call(6, -1, 2));
    assert_eq!(step.removed(0, 0), Ok(()));

    let step = kqueue_known(&set, Type::ReadWrite);
    assert_eq!(
        step.request().changes,
        vec![kqueue_event(6, -1, 1), kqueue_event(6, -2, 1)]
    );
    assert_eq!(step.added(0, 0), Ok(None));
}

#[test]
fn kqueue_modify_of_an_unknown_descriptor_says_doesnt_exist() {
    let set = kqueue_set(3);
    let step = set.modify(0, Type::Read).unwrap().searched(-1, libc::ENOENT).unwrap();
    assert_eq!(step.searched(-1, libc::ENOENT), Err(Error::DoesntExist));
}

#[test]
fn kqueue_modify_reports_each_error() {
    let set = kqueue_set(3);
    for (err, error) in [
        (libc::EBADF, Error::BadFD),
        (libc::EACCES, Error::NoPermission),
        (libc::ENOMEM, Error::Resources),
    ] {
        let first = || set.modify(6, Type::Write).unwrap();
        assert_eq!(first().searched(-1, err), Err(error));
        assert_eq!(first().searched(0, 0).unwrap().searched(-1, err), Err(error));
        assert_eq!(
            first().searched(-1, libc::ENOENT).unwrap().searched(-1, err),
            Err(error)
        );
        assert_eq!(kqueue_known(&set, Type::Write).added(-1, err), Err(error));
        let rest = kqueue_known(&set, Type::Write).added(0, 0).unwrap().unwrap();
        assert_eq!(rest.removed(-1, err), Err(error));
    }
}

#[test]
fn kqueue_delete_removes_both_filters() {
    let set = kqueue_set(3);
    let step = set.delete(6).unwrap();
    assert_eq!(step.request(), kqueue_call(6, -1, 2));
    let step = step.removed(0, 0).unwrap();
    assert_eq!(step.request(), kqueue_call(6, -2, 2));
    assert_eq!(step.removed(0, 0), Ok(()));
}

#[test]
fn kqueue_delete_of_a_single_filter_succeeds() {
    let set = kqueue_set(3);
    let step = set.delete(6).unwrap().removed(-1, libc::ENOENT).unwrap();
    assert_eq!(step.removed(0, 0), Ok(()));
    let step = set.delete(6).unwrap().removed(0, 0).unwrap();
    assert_eq!(step.removed(-1, libc::ENOENT), Ok(()));
}

#[test]
fn kqueue_delete_reports_each_error() {
    let set = kqueue_set(3);
    let first = |r, err| set.delete(6).unwrap().removed(r, err);
    assert_eq!(first(-1, libc::EBADF), Err(Error::BadFD));
    assert_eq!(first(-1, libc::EACCES), Err(Error::Resources));

    let found = || first(0, 0).unwrap();
    assert_eq!(found().removed(-1, libc::EBADF), Err(Error::BadFD));
    assert_eq!(found().removed(-1, libc::ENOMEM), Err(Error::Resources));

    let missing = || first(-1, libc::ENOENT).unwrap();
    assert_eq!(missing().removed(-1, libc::ENOENT), Err(Error::DoesntExist));
    assert_eq!(missing().removed(-1, libc::EBADF), Err(Error::BadFD));
    assert_eq!(missing().removed(-1, libc::ENOMEM), Err(Error::Resources));
}

#[test]
fn kqueue_requests_are_refused_while_waiting() {
    let mut set = kqueue_set(3);
    assert_eq!(set.abort(), Err(()));
    set.wait().unwrap();
    assert!(set.running());
    assert_eq!(set.wait(), Err(()));
    assert_eq!(set.abort(), Ok(WriteCall { fd: 5, byte: 0 }));
    assert_eq!(set.acquire(), Wakeup::Run);
    assert!(set.start().is_some());
    assert!(set.running());
    assert!(set.locked());
    assert_eq!(set.wait(), Err(()));
    assert!(set.events().is_err());
    assert_eq!(set.add(6, Type::Read), Err(Error::Waiting));
    assert_eq!(set.modify(6, Type::Read), Err(Error::Waiting));
    assert_eq!(set.delete(6).unwrap_err(), Error::Waiting);
    assert_eq!(set.abort(), Ok(WriteCall { fd: 5, byte: 0 }));
}

#[test]
fn kqueue_abort_empties_the_pipe_without_a_message() {
    let mut set = kqueue_set(3);
    kqueue_begin(&mut set);
    set.polled(1, 0, vec![kqueue_event(4, -1, 0)]);
    let again = Drained::Again(ReadCall { fd: 4, len: 8 });
    assert_eq!(set.drained(8), again);
    assert_eq!(set.phase(), Phase::Discarding);
    assert_eq!(set.drained(2), again);
    assert_eq!(set.drained(-1), Drained::Silent);
    assert_eq!(set.phase(), Phase::Parked);
    assert_eq!(set.events().unwrap().slice(), &[kqueue_event(4, -1, 0)]);
}

#[test]
fn kqueue_interrupted_wait_reports_a_signal() {
    let mut set = kqueue_set(3);
    kqueue_begin(&mut set);
    assert_eq!(set.polled(-1, libc::EINTR, vec![]), Polled::Notify(Err(Error::Signal)));
    assert!(!set.running());
    assert_eq!(set.events().unwrap().slice(), &[]);
}

#[test]
fn kqueue_failed_wait_reports_resources() {
    let mut set = kqueue_set(3);
    kqueue_begin(&mut set);
    assert_eq!(
        set.polled(-1, libc::ENOMEM, vec![]),
        Polled::Notify(Err(Error::Resources))
    );
}

#[test]
fn kqueue_limit_is_handed_to_the_kernel_as_a_c_int() {
    assert_eq!(kqueue_begin(&mut kqueue_set(0)).nevents, 0);
    assert_eq!(kqueue_begin(&mut kqueue_set(0x1_0000_0002)).nevents, 2);
}

#[test]
fn kqueue_dropped_set_closes_its_descriptors() {
    let mut set = kqueue_set(3);
    assert_eq!(set.shut_down(), vec![3, 5]);
    assert_eq!(set.acquire(), Wakeup::Exit);
    assert_eq!(set.left(), 4);
}

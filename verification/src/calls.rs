//! What holds of the calls that a poll set hands out, of how their replies are read, and of the
//! events that come back.
use crate::epoll;
use crate::errno;
use crate::kqueue;
use crate::laws::{Step, World};
use crate::monitor::State;
use crate::types::{Error, Type};
use crate::wire;
use libc::{c_int, c_short};
use vstd::prelude::*;

verus! {

/// `epoll`: what the kernel is asked for depends on the watch type alone, not on the descriptor.
/// It is readiness for reading, for writing or for both, and no other bit is set. The word kept
/// with the descriptor holds nothing but the descriptor.
pub proof fn epoll_asks_for_nothing_else(fd: c_int, other: c_int, ty: Type)
    ensures
        epoll::watch(fd, ty).events & !(epoll::EPOLLIN | epoll::EPOLLOUT) == 0,
        epoll::watch(fd, ty).events & epoll::EPOLLIN != 0 <==> !(ty is Write),
        epoll::watch(fd, ty).events & epoll::EPOLLOUT != 0 <==> !(ty is Read),
        epoll::watch(fd, ty).events == epoll::watch(other, ty).events,
        epoll::watch(fd, ty).data.data <= u32::MAX,
        fd >= 0 ==> epoll::watch(fd, ty).data.data == fd,
        fd != other ==> epoll::watch(fd, ty).data != epoll::watch(other, ty).data,
{
    let mask = epoll::watch(fd, ty).events;
    assert(1u32 & !(1u32 | 4) == 0 && 4u32 & !(1u32 | 4) == 0 && (1u32 | 4) & !(1u32 | 4) == 0)
        by (bit_vector);
    assert(1u32 & 4 == 0 && 1u32 & 1 != 0 && 4u32 & 1 == 0 && 4u32 & 4 != 0) by (bit_vector);
    assert((1u32 | 4) & 1 != 0) by (bit_vector);
    assert((1u32 | 4) & 4 != 0) by (bit_vector);
    assert(fd >= 0 ==> fd as u32 == fd) by (bit_vector);
    wire::epoll_watch_says_what_was_asked(fd, ty);
    wire::epoll_watch_says_what_was_asked(other, ty);
}

/// `epoll`: an event is readable whenever it reports readiness for reading and writable whenever
/// it reports readiness for writing, and only then, whatever other kinds of readiness it reports
/// beside, such as a hang-up or an error, and whichever descriptor it names.
pub proof fn epoll_readiness_is_seen_whatever_else_is_reported(event: epoll::Event, others: u32)
    requires
        others & (epoll::EPOLLIN | epoll::EPOLLOUT) == 0,
    ensures
        event.events == others ==> !event.readable() && !event.writable(),
        event.events == epoll::EPOLLIN | others ==> event.readable() && !event.writable(),
        event.events == epoll::EPOLLOUT | others ==> !event.readable() && event.writable(),
        event.events == (epoll::EPOLLIN | epoll::EPOLLOUT) | others ==> event.readable()
            && event.writable(),
{
    assert(others & 1 == 0 && others & 4 == 0) by (bit_vector)
        requires
            others & (1u32 | 4u32) == 0,
    ;
    assert((1u32 | others) & 1 != 0 && ((1u32 | others) & 4 == 0)) by (bit_vector)
        requires
            others & (1u32 | 4u32) == 0,
    ;
    assert((4u32 | others) & 4 != 0 && ((4u32 | others) & 1 == 0)) by (bit_vector)
        requires
            others & (1u32 | 4u32) == 0,
    ;
    assert(((1u32 | 4u32) | others) & 1 != 0 && ((1u32 | 4u32) | others) & 4 != 0) by (bit_vector);
}

/// `epoll`: an event that reports at least what was asked for is seen as ready for all of it,
/// however much it reports beside, and names the descriptor that was asked about.
pub proof fn epoll_event_is_ready_for_what_was_asked(
    event: epoll::Event,
    fd: c_int,
    ty: Type,
    others: u32,
)
    requires
        event.data == epoll::watch(fd, ty).data,
        event.events == epoll::watch(fd, ty).events | others,
    ensures
        event.spec_fd() == fd,
        ty.wants_read() ==> event.readable(),
        ty.wants_write() ==> event.writable(),
{
    let asked = epoll::watch(fd, ty).events;
    wire::epoll_watch_says_what_was_asked(fd, ty);
    assert(asked & 1 != 0 ==> (asked | others) & 1 != 0) by (bit_vector);
    assert(asked & 4 != 0 ==> (asked | others) & 4 != 0) by (bit_vector);
}

/// `epoll`: the descriptor that an event names is the lower half of its word, read as a signed
/// number, whatever the upper half holds and whatever the event reports.
pub proof fn epoll_event_names_the_lower_half_of_its_word(event: epoll::Event)
    ensures
        event.spec_fd() >= 0 ==> event.data.data % 0x1_0000_0000 == event.spec_fd(),
        event.spec_fd() < 0 ==> event.data.data % 0x1_0000_0000 == event.spec_fd()
            + 0x1_0000_0000,
{
    let word = event.data.data;
    assert(word as i32 >= 0 ==> word % 0x1_0000_0000 == word as i32) by (bit_vector);
    assert((word as i32) < 0 ==> word % 0x1_0000_0000 == word as i32 + 0x1_0000_0000)
        by (bit_vector);
}

/// `epoll`: putting a descriptor into a word replaces the one that was there and nothing else: it
/// is the one that is found there, the upper half stays, and what was put in before is forgotten.
/// In an empty word this gives the word that is kept with the descriptor.
pub proof fn epoll_words_keep_their_upper_half(
    word: epoll::epoll_data,
    fd: c_int,
    earlier: c_int,
    ty: Type,
)
    ensures
        word.with_fd(fd).spec_fd() == fd,
        word.with_fd(fd).data / 0x1_0000_0000 == word.data / 0x1_0000_0000,
        word.with_fd(earlier).with_fd(fd) == word.with_fd(fd),
        word.with_fd(word.spec_fd()) == word,
        word.data == 0 ==> word.with_fd(fd) == epoll::watch(fd, ty).data,
{
    let data = word.data;
    assert(((data & 0xffff_ffff_0000_0000) | ((fd as u32) as u64)) as i32 == fd) by (bit_vector);
    assert(((data & 0xffff_ffff_0000_0000) | ((fd as u32) as u64)) / 0x1_0000_0000 == data
        / 0x1_0000_0000) by (bit_vector);
    assert((((data & 0xffff_ffff_0000_0000) | ((earlier as u32) as u64)) & 0xffff_ffff_0000_0000)
        == data & 0xffff_ffff_0000_0000) by (bit_vector);
    assert(((data & 0xffff_ffff_0000_0000) | (((data as i32) as u32) as u64)) == data)
        by (bit_vector);
    assert(((0u64 & 0xffff_ffff_0000_0000) | ((fd as u32) as u64)) == (fd as u32) as u64)
        by (bit_vector);
}

/// `kqueue`: a change is about the filter and does what it is made for, names its descriptor by
/// its number, and carries nothing else. Different descriptors are named differently.
pub proof fn kqueue_change_carries_nothing_else(
    fd: c_int,
    other: c_int,
    filter: c_short,
    flags: c_short,
)
    ensures
        kqueue::change(fd, filter, flags).filter == filter,
        kqueue::change(fd, filter, flags).flags == flags,
        kqueue::change(fd, filter, flags).fflags == 0,
        kqueue::change(fd, filter, flags).data == 0,
        kqueue::change(fd, filter, flags).udata == 0,
        fd >= 0 ==> kqueue::change(fd, filter, flags).ident == fd,
        fd != other ==> kqueue::change(fd, filter, flags).ident != kqueue::change(
            other,
            filter,
            flags,
        ).ident,
{
    wire::kqueue_change_names_its_descriptor(fd, filter, flags);
    wire::kqueue_change_names_its_descriptor(other, filter, flags);
    assert(fd >= 0 ==> fd as usize == fd) by (bit_vector);
}

/// `kqueue`: whether an event is readable or writable depends on its filter alone, and which
/// descriptor it names on its identifier alone: the lower 32 bits, read as a signed number.
pub proof fn kqueue_event_is_read_by_its_filter(event: kqueue::Event)
    ensures
        event.readable() <==> event.filter == -1,
        event.writable() <==> event.filter == -2,
        event.spec_fd() >= 0 ==> event.ident as int % 0x1_0000_0000 == event.spec_fd(),
        event.spec_fd() < 0 ==> event.ident as int % 0x1_0000_0000 == event.spec_fd()
            + 0x1_0000_0000,
{
    let ident = event.ident;
    assert(ident as i32 >= 0 ==> (ident as u64) % 0x1_0000_0000 == ident as i32) by (bit_vector);
    assert((ident as i32) < 0 ==> (ident as u64) % 0x1_0000_0000 == ident as i32
        + 0x1_0000_0000) by (bit_vector);
}

/// `epoll`: a reply that isn't -1 is a success, whatever error number is left over.
pub proof fn epoll_success_is_read_as_success(r: c_int, err: c_int)
    requires
        r != -1,
    ensures
        epoll::add_outcome(r, err) == Ok::<(), Error>(()),
        epoll::change_outcome(r, err) == Ok::<(), Error>(()),
{
}

/// `epoll`: a reply of -1 is an error, which the error number alone decides: each that has a
/// meaning of its own is told apart, and all others are a want of resources.
pub proof fn epoll_failure_is_read_by_its_number(err: c_int)
    ensures
        ({
            let added = epoll::add_outcome((-1) as c_int, err);
            let changed = epoll::change_outcome((-1) as c_int, err);
            &&& added is Err && changed is Err
            &&& added == Err::<(), Error>(Error::BadFD) <==> err == errno::bad_descriptor()
            &&& added == Err::<(), Error>(Error::Exists) <==> err == errno::already_exists()
            &&& added == Err::<(), Error>(Error::Unsupported) <==> err == errno::not_permitted()
            &&& changed == Err::<(), Error>(Error::BadFD) <==> err == errno::bad_descriptor()
            &&& changed == Err::<(), Error>(Error::DoesntExist) <==> err == errno::no_entry()
            &&& added == Err::<(), Error>(Error::Resources) <==> !{
                ||| err == errno::bad_descriptor()
                ||| err == errno::already_exists()
                ||| err == errno::not_permitted()
            }
            &&& changed == Err::<(), Error>(Error::Resources) <==> !{
                ||| err == errno::bad_descriptor()
                ||| err == errno::no_entry()
            }
        }),
{
}

/// `kqueue`: a reply that isn't -1 is a success, whatever error number is left over. A search that
/// succeeds has found its filter: `add` says `Exists`, and `modify` goes on as for a descriptor in
/// the set. A removal that succeeds has removed its filter, which was not missing.
pub proof fn kqueue_success_is_read_as_success(
    r: c_int,
    err: c_int,
    kq: c_int,
    fd: c_int,
    ty: Type,
    flag: bool,
)
    requires
        r != -1,
    ensures
        kqueue::search_outcome(r, err) == Ok::<bool, Error>(true),
        kqueue::add_outcome(r, err) == Ok::<(), Error>(()),
        kqueue::rest_outcome(r, err) == Ok::<(), Error>(()),
        kqueue::read_filter_outcome(r, err) == Ok::<bool, Error>(false),
        kqueue::write_filter_outcome(flag, r, err) == Ok::<(), Error>(()),
        (kqueue::AddRead { kq, fd, ty }).after(r, err) == Err::<kqueue::AddWrite, Error>(
            Error::Exists,
        ),
        (kqueue::AddWrite { kq, fd, ty }).after(r, err) == Err::<kqueue::AddWatch, Error>(
            Error::Exists,
        ),
        (kqueue::ModifyRead { kq, fd, ty }).after(r, err) matches Ok(next) && next.found,
        (kqueue::ModifyWrite { kq, fd, ty, found: flag }).after(r, err) is Ok,
        (kqueue::ModifyWatch { kq, fd, ty }).after(r, err) is Ok,
        (kqueue::DeleteRead { kq, fd }).after(r, err) matches Ok(next) && !next.not_found,
{
}

/// `kqueue`: that a filter is missing is no error of a search or a removal by itself. `add` goes
/// on, and so does `modify` if the other filter is there; a descriptor with neither isn't in the
/// set, and that is what `modify` and `delete` answer.
pub proof fn kqueue_missing_filters_decide_together(
    kq: c_int,
    fd: c_int,
    ty: Type,
    flag: bool,
)
    ensures
        ({
            let r = (-1) as c_int;
            let err = errno::no_entry();
            &&& (kqueue::AddRead { kq, fd, ty }).after(r, err) is Ok
            &&& (kqueue::AddWrite { kq, fd, ty }).after(r, err) is Ok
            &&& (kqueue::ModifyRead { kq, fd, ty }).after(r, err) matches Ok(next) && !next.found
            &&& (kqueue::ModifyWrite { kq, fd, ty, found: flag }).after(r, err) is Ok <==> flag
            &&& !flag ==> (kqueue::ModifyWrite { kq, fd, ty, found: flag }).after(r, err)
                == Err::<kqueue::ModifyWatch, Error>(Error::DoesntExist)
            &&& kqueue::rest_outcome(r, err) == Ok::<(), Error>(())
            &&& (kqueue::DeleteRead { kq, fd }).after(r, err) matches Ok(next) && next.not_found
            &&& kqueue::write_filter_outcome(flag, r, err) is Ok <==> !flag
            &&& flag ==> kqueue::write_filter_outcome(flag, r, err) == Err::<(), Error>(
                Error::DoesntExist,
            )
        }),
{
}

/// How the number of an error is reported that `kevent` gives for a reason other than a missing
/// filter. Only `add` and `modify` tell a want of permission apart.
pub open spec fn kqueue_reason(err: c_int, changing: bool) -> Error {
    if err == errno::bad_descriptor() {
        Error::BadFD
    } else if changing && err == errno::access_denied() {
        Error::NoPermission
    } else {
        Error::Resources
    }
}

/// `kqueue`: a reply of -1 for any other reason ends the operation at whichever step it comes, and
/// is reported by its number.
pub proof fn kqueue_failure_is_read_by_its_number(
    err: c_int,
    kq: c_int,
    fd: c_int,
    ty: Type,
    flag: bool,
)
    requires
        err != errno::no_entry(),
    ensures
        ({
            let r = (-1) as c_int;
            let changing = kqueue_reason(err, true);
            let removing = kqueue_reason(err, false);
            &&& (kqueue::AddRead { kq, fd, ty }).after(r, err) == Err::<
                kqueue::AddWrite,
                Error,
            >(changing)
            &&& (kqueue::AddWrite { kq, fd, ty }).after(r, err) == Err::<
                kqueue::AddWatch,
                Error,
            >(changing)
            &&& kqueue::search_outcome(r, err) == Err::<bool, Error>(changing)
            &&& kqueue::add_outcome(r, err) == Err::<(), Error>(changing)
            &&& kqueue::rest_outcome(r, err) == Err::<(), Error>(changing)
            &&& (kqueue::ModifyRead { kq, fd, ty }).after(r, err) == Err::<
                kqueue::ModifyWrite,
                Error,
            >(changing)
            &&& (kqueue::ModifyWrite { kq, fd, ty, found: flag }).after(r, err) == Err::<
                kqueue::ModifyWatch,
                Error,
            >(changing)
            &&& (kqueue::ModifyWatch { kq, fd, ty }).after(r, err) == Err::<
                Option<kqueue::ModifyRest>,
                Error,
            >(changing)
            &&& (kqueue::DeleteRead { kq, fd }).after(r, err) == Err::<
                kqueue::DeleteWrite,
                Error,
            >(removing)
            &&& kqueue::read_filter_outcome(r, err) == Err::<bool, Error>(removing)
            &&& kqueue::write_filter_outcome(flag, r, err) == Err::<(), Error>(removing)
        }),
{
}

/// `kqueue`: adding filters that can't be missing fails with a want of resources even if the
/// kernel says that something is.
pub proof fn kqueue_an_addition_misses_nothing(kq: c_int, fd: c_int, ty: Type)
    ensures
        kqueue::add_outcome((-1) as c_int, errno::no_entry()) == Err::<(), Error>(
            Error::Resources,
        ),
        (kqueue::ModifyWatch { kq, fd, ty }).after((-1) as c_int, errno::no_entry()) == Err::<
            Option<kqueue::ModifyRest>,
            Error,
        >(Error::Resources),
{
}

/// `kqueue`: every step of an operation is about the queue and the descriptor of the step before
/// it, and about the same watch type.
pub proof fn kqueue_steps_stay_with_their_descriptor(
    kq: c_int,
    fd: c_int,
    ty: Type,
    flag: bool,
    r: c_int,
    err: c_int,
)
    ensures
        (kqueue::AddRead { kq, fd, ty }).after(r, err) matches Ok(next) ==> next == (
        kqueue::AddWrite { kq, fd, ty }),
        (kqueue::AddWrite { kq, fd, ty }).after(r, err) matches Ok(next) ==> next == (
        kqueue::AddWatch { kq, fd, ty }),
        (kqueue::ModifyRead { kq, fd, ty }).after(r, err) matches Ok(next) ==> next.kq == kq
            && next.fd == fd && next.ty == ty,
        (kqueue::ModifyWrite { kq, fd, ty, found: flag }).after(r, err) matches Ok(next) ==> next
            == (kqueue::ModifyWatch { kq, fd, ty }),
        (kqueue::ModifyWatch { kq, fd, ty }).after(r, err) matches Ok(rest) ==> {
            &&& rest is None <==> ty is ReadWrite
            &&& rest matches Some(next) ==> next.kq == kq && next.fd == fd && (next.filter == -1
                <==> ty is Write) && (next.filter == -2 <==> ty is Read)
        },
        (kqueue::DeleteRead { kq, fd }).after(r, err) matches Ok(next) ==> next.kq == kq && next.fd
            == fd,
{
}

/// `epoll`: the calls of `add`, `modify` and `delete` are made on the set's own `epoll` descriptor
/// and about the descriptor that was asked for, and are handed out exactly while no wait is
/// running.
pub proof fn epoll_calls_are_made_on_the_sets_own_queue(poll: epoll::Model, fd: c_int, ty: Type)
    ensures
        match poll.add_request(fd, ty) {
            Ok(call) => {
                &&& !poll.state.running()
                &&& call.epfd == poll.epfd && call.fd == fd
                &&& call.event matches Some(event) && event.spec_fd() == fd
            },
            Err(error) => poll.state.running() && error is Waiting,
        },
        match poll.modify_request(fd, ty) {
            Ok(call) => {
                &&& !poll.state.running()
                &&& call.epfd == poll.epfd && call.fd == fd
                &&& call.event matches Some(event) && event.spec_fd() == fd
            },
            Err(error) => poll.state.running() && error is Waiting,
        },
        match poll.delete_request(fd) {
            Ok(call) => {
                &&& !poll.state.running()
                &&& call.epfd == poll.epfd && call.fd == fd
                &&& call.event is None
            },
            Err(error) => poll.state.running() && error is Waiting,
        },
{
    wire::epoll_watch_says_what_was_asked(fd, ty);
}

/// `epoll`: the call that `add` hands out and the one that `modify` hands out for the same
/// descriptor and type differ in the operation alone.
pub proof fn epoll_add_and_modify_differ_in_the_operation(
    poll: epoll::Model,
    fd: c_int,
    ty: Type,
)
    requires
        !poll.state.running(),
    ensures
        poll.add_request(fd, ty) matches Ok(added) && poll.modify_request(fd, ty) matches Ok(
            modified,
        ) && modified == (epoll::Ctl { op: modified.op, ..added }) && modified.op != added.op,
{
}

/// `kqueue`: the first steps of `add`, `modify` and `delete` are about the set's own queue and the
/// descriptor that was asked for, and are handed out exactly while no wait is running.
pub proof fn kqueue_calls_are_made_on_the_sets_own_queue(
    poll: kqueue::Model,
    fd: c_int,
    ty: Type,
)
    ensures
        match poll.add_request(fd, ty) {
            Ok(step) => {
                &&& !poll.state.running()
                &&& step == (kqueue::AddRead { kq: poll.kq, fd, ty })
                &&& step.call().kq == poll.kq
            },
            Err(error) => poll.state.running() && error is Waiting,
        },
        match poll.modify_request(fd, ty) {
            Ok(step) => {
                &&& !poll.state.running()
                &&& step == (kqueue::ModifyRead { kq: poll.kq, fd, ty })
                &&& step.call().kq == poll.kq
            },
            Err(error) => poll.state.running() && error is Waiting,
        },
        match poll.delete_request(fd) {
            Ok(step) => {
                &&& !poll.state.running()
                &&& step == (kqueue::DeleteRead { kq: poll.kq, fd })
                &&& step.call().kq == poll.kq
            },
            Err(error) => poll.state.running() && error is Waiting,
        },
{
}

/// `epoll`: the worker waits on the set's own descriptor, without a time limit, for at most as
/// many events as one wait may store, and for just as many if that number is a C integer. It does
/// so exactly if nobody reads the stored events, whatever they are.
pub proof fn epoll_waits_on_the_sets_own_queue(poll: epoll::Model, max: usize)
    requires
        poll.state.max == max,
    ensures
        poll.wait_request() is Some <==> poll.state.readers == 0,
        poll.wait_request() matches Some(call) ==> {
            &&& call.epfd == poll.epfd
            &&& call.timeout == -1
            &&& call.maxevents <= max
            &&& max <= c_int::MAX ==> call.maxevents == max
        },
        poll.state.phase is Starting ==> (poll.wait_request() is Some
            <==> poll.state.started().phase is Polling),
{
    wire::the_kernel_is_asked_for_at_most_max(max);
}

/// `kqueue`: the worker waits on the set's own queue and changes nothing in it, for at most as
/// many events as one wait may store, and for just as many if that number is a C integer. It does
/// so exactly if nobody reads the stored events, whatever they are.
pub proof fn kqueue_waits_on_the_sets_own_queue(poll: kqueue::Model, max: usize)
    requires
        poll.state.max == max,
    ensures
        poll.wait_request() is Some <==> poll.state.readers == 0,
        poll.wait_request() matches Some(call) ==> {
            &&& call.kq == poll.kq
            &&& call.changes.len() == 0
            &&& call.nevents <= max
            &&& max <= c_int::MAX ==> call.nevents == max
        },
        poll.state.phase is Starting ==> (poll.wait_request() is Some
            <==> poll.state.started().phase is Polling),
{
    wire::the_kernel_is_asked_for_at_most_max(max);
}

/// `epoll`: what `abort` writes is what the worker looks for: it goes to the descriptor that the
/// worker reads once the kernel has answered, in the eight bytes of a counter that the read asks
/// for, and adds to it just what an abort counts for. `abort` is accepted exactly while a wait is
/// running.
pub proof fn epoll_abort_reaches_the_worker(
    poll: epoll::Model,
    pending: nat,
    r: c_int,
    err: c_int,
)
    requires
        r != -1,
    ensures
        poll.abort_request() is Ok <==> poll.state.running(),
        poll.abort_request() matches Ok(write) ==> {
            &&& poll.polled_request(r, err) matches epoll::Polled::Drain(read) && read.fd
                == write.fd && read.len == 8
            &&& write.fd == poll.abort
            &&& (World { state: poll.state, pending }).after(
                Step::Abort { written: true },
            ).pending == pending + write.value
        },
{
}

/// `kqueue`: what `abort` writes is what the worker looks for: it goes into the pipe whose other
/// end the worker reads once the kernel has answered, and reads again as long as something was
/// there. `abort` is accepted exactly while a wait is running.
pub proof fn kqueue_abort_reaches_the_worker(
    max: usize,
    queue: c_int,
    read_end: c_int,
    write_end: c_int,
    state: State<kqueue::Event>,
    r: c_int,
    err: c_int,
    n: int,
)
    requires
        queue != -1,
        r != -1,
    ensures
        wire::kqueue_setup(max, queue, 0, read_end, write_end, 0) matches Ok(made) && {
            let poll = kqueue::Model { state, ..made };
            &&& poll.abort_request() is Ok <==> poll.state.running()
            &&& poll.abort_request() matches Ok(write) ==> write.fd == write_end && write.byte == 0
            &&& poll.polled_request(r, err) matches kqueue::Polled::Drain(read) && read.fd
                == read_end && read.len == 8
            &&& n > 0 ==> {
                poll.drained_request(n) matches kqueue::Drained::Again(read) && read.fd == read_end
                    && read.len == 8
            }
        },
{
}

/// `epoll`: what the worker does after the kernel's answer goes with the state: it sends the
/// message of a wait that failed, and otherwise looks into the abort descriptor.
pub proof fn epoll_worker_follows_the_state(
    poll: epoll::Model,
    r: c_int,
    err: c_int,
    buf: Seq<epoll::Event>,
)
    ensures
        match poll.polled_request(r, err) {
            epoll::Polled::Notify(notice) => {
                &&& poll.state.message(Step::Polled { r: r as int, err, buf }) == Some(notice)
                &&& poll.state.polled(r as int, buf).phase is Parked
            },
            epoll::Polled::Drain(read) => {
                &&& poll.state.message(Step::Polled { r: r as int, err, buf }) is None
                &&& poll.state.polled(r as int, buf).phase is Draining
                &&& read.fd == poll.abort
            },
        },
        poll.polled_request(r, err) is Notify <==> r == -1,
{
}

/// `kqueue`: what the worker does after the kernel's answer, and after each read of the abort
/// pipe, goes with the state: it sends the message of a wait that failed or was not aborted, reads
/// on while the round goes on, and otherwise is silent.
pub proof fn kqueue_worker_follows_the_state(
    poll: kqueue::Model,
    r: c_int,
    err: c_int,
    buf: Seq<kqueue::Event>,
    n: int,
)
    ensures
        match poll.polled_request(r, err) {
            kqueue::Polled::Notify(notice) => {
                &&& poll.state.message(Step::Polled { r: r as int, err, buf }) == Some(notice)
                &&& poll.state.polled(r as int, buf).phase is Parked
            },
            kqueue::Polled::Drain(read) => {
                &&& poll.state.message(Step::Polled { r: r as int, err, buf }) is None
                &&& poll.state.polled(r as int, buf).phase is Draining
                &&& read.fd == poll.read_end
            },
        },
        poll.polled_request(r, err) is Notify <==> r == -1,
        match poll.drained_request(n) {
            kqueue::Drained::Notify(notice) => {
                &&& poll.state.message(Step::Drained { n }) == Some(notice)
                &&& notice == Ok::<(), Error>(())
                &&& poll.state.phase is Draining
                &&& poll.state.drained(n).phase is Parked
            },
            kqueue::Drained::Again(read) => {
                &&& poll.state.message(Step::Drained { n }) is None
                &&& poll.state.drained(n).phase is Discarding
                &&& read.fd == poll.read_end
            },
            kqueue::Drained::Silent => {
                &&& poll.state.message(Step::Drained { n }) is None
                &&& !(poll.state.phase is Draining)
                &&& poll.state.drained(n).phase is Parked
            },
        },
        poll.drained_request(n) is Again <==> n > 0,
{
}

/// `epoll`: a set that was made and is dropped, whatever happened to its state in between, closes
/// just the descriptors that were opened for it, each of them once.
pub proof fn epoll_closes_what_was_opened(
    max: usize,
    queue: c_int,
    abort: c_int,
    state: State<epoll::Event>,
)
    requires
        queue != -1,
        abort != -1,
    ensures
        wire::epoll_setup(max, queue, abort, 0) matches Ok(made) && (epoll::Model {
            state,
            ..made
        }).closing() == seq![queue, abort],
{
}

/// `kqueue`: a set that was made and is dropped, whatever happened to its state in between, closes
/// just the descriptors that were opened for it, each of them once: the worker the end of the pipe
/// that it reads, and the user's side the rest.
pub proof fn kqueue_closes_what_was_opened(
    max: usize,
    queue: c_int,
    read_end: c_int,
    write_end: c_int,
    state: State<kqueue::Event>,
)
    requires
        queue != -1,
    ensures
        wire::kqueue_setup(max, queue, 0, read_end, write_end, 0) matches Ok(made) && {
            let poll = kqueue::Model { state, ..made };
            &&& poll.closing() == seq![queue, write_end]
            &&& poll.leaving() == read_end
        },
{
}

/// A set starts out with no abort pending, and reads of its abort descriptor return at once: the
/// flag that asks for this is 2048 on Linux and 4 on the other systems.
pub proof fn a_set_starts_with_no_abort_pending(
    queue: epoll::NewQueue,
    abort: epoll::NewAbort,
    os: kqueue::Os,
)
    ensures
        queue.call() == 0,
        abort.call().initval == 0,
        abort.call().flags == kqueue::Os::Linux.nonblock(),
        os.nonblock() == if os is Linux {
            2048int
        } else {
            4int
        },
{
}

/// The user hears of a signal exactly if a signal interrupted the wait; every other failure is a
/// want of resources.
pub proof fn a_signal_is_told_apart(poll: epoll::Model, other: kqueue::Model, err: c_int)
    ensures
        ({
            let r = (-1) as c_int;
            let signal = Err::<(), Error>(Error::Signal);
            let resources = Err::<(), Error>(Error::Resources);
            &&& poll.polled_request(r, err) == epoll::Polled::Notify(signal) <==> err
                == errno::interrupted()
            &&& poll.polled_request(r, err) == epoll::Polled::Notify(resources) <==> err
                != errno::interrupted()
            &&& other.polled_request(r, err) == kqueue::Polled::Notify(signal) <==> err
                == errno::interrupted()
            &&& other.polled_request(r, err) == kqueue::Polled::Notify(resources) <==> err
                != errno::interrupted()
        }),
{
}

} // verus!

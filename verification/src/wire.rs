//! What holds of the values that cross the kernel boundary.
use crate::epoll;
use crate::kqueue;
use crate::monitor::State;
use crate::types::{Error, Type};
use libc::{c_int, c_short};
use vstd::prelude::*;

verus! {

/// `epoll`: what the kernel is told about a descriptor names that descriptor and asks for just
/// the kinds of readiness that the watch type names.
pub proof fn epoll_watch_says_what_was_asked(fd: c_int, ty: Type)
    ensures
        epoll::watch(fd, ty).spec_fd() == fd,
        epoll::watch(fd, ty).readable() <==> ty.wants_read(),
        epoll::watch(fd, ty).writable() <==> ty.wants_write(),
{
    assert(((fd as u32) as u64) as i32 == fd) by (bit_vector);
    assert(1u32 & 1 != 0 && 1u32 & 4 == 0) by (bit_vector);
    assert(4u32 & 1 == 0 && 4u32 & 4 != 0) by (bit_vector);
    assert((1u32 | 4) & 1 != 0 && (1u32 | 4) & 4 != 0) by (bit_vector);
}

/// `epoll`: an event that carries the word kept with a descriptor names that descriptor. If it
/// reports no more than was asked for, beside kinds of readiness that are neither reading nor
/// writing, then it is readable or writable only if the watch type says so.
pub proof fn epoll_event_answers_its_watch(
    event: epoll::Event,
    fd: c_int,
    ty: Type,
    others: u32,
)
    requires
        event.data == epoll::watch(fd, ty).data,
        others & (epoll::EPOLLIN | epoll::EPOLLOUT) == 0,
        event.events & !(epoll::interest(ty) | others) == 0,
    ensures
        event.spec_fd() == fd,
        event.readable() ==> ty.wants_read(),
        event.writable() ==> ty.wants_write(),
{
    epoll_watch_says_what_was_asked(fd, ty);
    let asked = epoll::interest(ty);
    let got = event.events;
    assert(got & 1 != 0 ==> asked & 1 != 0) by (bit_vector)
        requires
            others & (1u32 | 4u32) == 0,
            got & !(asked | others) == 0,
    ;
    assert(got & 4 != 0 ==> asked & 4 != 0) by (bit_vector)
        requires
            others & (1u32 | 4u32) == 0,
            got & !(asked | others) == 0,
    ;
}

/// `kqueue`: each change that watches a descriptor names that descriptor and adds a filter, and
/// the filters are just those that the watch type names, each of them once.
pub proof fn kqueue_watch_says_what_was_asked(fd: c_int, ty: Type)
    ensures
        forall|i: int| 0 <= i < kqueue::watch(fd, ty).len() ==> {
            let change = #[trigger] kqueue::watch(fd, ty)[i];
            &&& change.spec_fd() == fd
            &&& change.flags == kqueue::EV_ADD
            &&& change.readable() != change.writable()
            &&& change.readable() ==> ty.wants_read()
            &&& change.writable() ==> ty.wants_write()
        },
        ty.wants_read() ==> kqueue::watch(fd, ty).contains(
            kqueue::change(fd, kqueue::EVFILT_READ, kqueue::EV_ADD),
        ),
        ty.wants_write() ==> kqueue::watch(fd, ty).contains(
            kqueue::change(fd, kqueue::EVFILT_WRITE, kqueue::EV_ADD),
        ),
        kqueue::watch(fd, ty).no_duplicates(),
{
    kqueue_change_names_its_descriptor(fd, 0, 0);
    let watch = kqueue::watch(fd, ty);
    if ty.wants_read() {
        assert(watch[0] == kqueue::change(fd, kqueue::EVFILT_READ, kqueue::EV_ADD));
    }
    if ty.wants_write() {
        assert(watch[watch.len() - 1] == kqueue::change(
            fd,
            kqueue::EVFILT_WRITE,
            kqueue::EV_ADD,
        ));
    }
}

/// `kqueue`: a change of a filter of a descriptor, and so an event of that filter, names that
/// descriptor.
pub proof fn kqueue_change_names_its_descriptor(fd: c_int, filter: c_short, flags: c_short)
    ensures
        kqueue::change(fd, filter, flags).spec_fd() == fd,
{
    assert((fd as usize) as i32 == fd) by (bit_vector);
}

/// The kernel is never asked for more events than one wait may store, and for just as many if
/// that number is a C integer.
pub proof fn the_kernel_is_asked_for_at_most_max(max: usize)
    ensures
        (max as nat) as c_int <= max,
        max <= c_int::MAX ==> (max as nat) as c_int == max,
{
    assert(max as i32 <= max) by (bit_vector);
}

/// How making a set on `epoll` ends, from the replies to its three calls.
pub open spec fn epoll_setup(max: usize, queue: c_int, abort: c_int, watch: c_int) -> Result<
    epoll::Model,
    (Error, Seq<c_int>),
> {
    match epoll::NewQueue::first(max).after(queue) {
        Ok(next) => match next.after(abort) {
            Ok(next) => next.after(watch),
            Err(failed) => Err(failed),
        },
        Err(failed) => Err(failed),
    }
}

/// `epoll`: a set is made exactly if no call fails, and starts out idle with the descriptors
/// that were opened. Otherwise it is reported as out of resources, and just the descriptors
/// that were opened are closed, the last one first.
pub proof fn epoll_setup_succeeds_or_cleans_up(
    max: usize,
    queue: c_int,
    abort: c_int,
    watch: c_int,
)
    ensures
        epoll_setup(max, queue, abort, watch) == (if queue == -1 {
            Err::<epoll::Model, (Error, Seq<c_int>)>((Error::Resources, Seq::empty()))
        } else if abort == -1 {
            Err((Error::Resources, seq![queue]))
        } else if watch == -1 {
            Err((Error::Resources, seq![abort, queue]))
        } else {
            Ok(epoll::Model { epfd: queue, abort, state: State::initial(max as nat) })
        }),
{
}

/// How making a set on `kqueue` ends, from the replies to its three calls.
pub open spec fn kqueue_setup(
    max: usize,
    queue: c_int,
    pipe: c_int,
    read_end: c_int,
    write_end: c_int,
    watch: c_int,
) -> Result<kqueue::Model, (Error, Seq<c_int>)> {
    match kqueue::NewQueue::first(max).after(queue) {
        Ok(next) => match next.after(pipe, read_end, write_end) {
            Ok(next) => next.after(watch),
            Err(failed) => Err(failed),
        },
        Err(failed) => Err(failed),
    }
}

/// `kqueue`: a set is made exactly if no call fails, and starts out idle with the descriptors
/// that were opened. Otherwise it is reported as out of resources, and just the descriptors
/// that were opened are closed, the last one first.
pub proof fn kqueue_setup_succeeds_or_cleans_up(
    max: usize,
    queue: c_int,
    pipe: c_int,
    read_end: c_int,
    write_end: c_int,
    watch: c_int,
)
    ensures
        kqueue_setup(max, queue, pipe, read_end, write_end, watch) == (if queue == -1 {
            Err::<kqueue::Model, (Error, Seq<c_int>)>((Error::Resources, Seq::empty()))
        } else if pipe == -1 {
            Err((Error::Resources, seq![queue]))
        } else if watch == -1 {
            Err((Error::Resources, seq![write_end, read_end, queue]))
        } else {
            Ok(
                kqueue::Model {
                    kq: queue,
                    read_end,
                    write_end,
                    state: State::initial(max as nat),
                },
            )
        }),
{
}

} // verus!

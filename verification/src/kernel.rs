//! What `add`, `modify` and `delete` do to the descriptors that the kernel watches.
//!
//! The kernel's part is stated as its documentation gives it: [`epoll_ctl`] over the events kept
//! for each descriptor of each `epoll` set, and [`kevent_call`] over the filters of each queue.
//! Every call names the set or queue that it is about, and no other one is touched. Beside what
//! follows from these, the kernel may refuse a change for a reason of its own, such as a
//! descriptor that isn't open or want of memory; everything is then as it was. A call that
//! succeeds doesn't set the error number, so that any number may be left over from before. The
//! laws join these answers to the calls that the poll sets hand out and to how they report the
//! replies.
use crate::epoll;
use crate::errno;
use crate::kqueue;
use crate::types::{Error, Type};
use libc::{c_int, c_short};
use vstd::prelude::*;

verus! {

/// A reply of the kernel: what the call returned, and the error number that is found after it.
pub struct Reply {
    pub r: c_int,
    pub err: c_int,
}

/// How the kernel takes one change, beside what follows from the set.
pub struct Mood {
    /// The error number with which it refuses the change for a reason of its own.
    pub refused: Option<c_int>,
    /// The error number that is left over from before, if the change succeeds.
    pub left: c_int,
}

/// A call that succeeded, and the error number that was left over from before.
pub open spec fn success(left: c_int) -> Reply {
    Reply { r: 0, err: left }
}

/// A call that failed with the error number `err`.
pub open spec fn failure(err: c_int) -> Reply {
    Reply { r: (-1) as c_int, err }
}

/// The error number of a call whose arguments make no sense.
pub open spec fn invalid() -> c_int {
    22
}

/// The descriptors in an `epoll` set, each with the event that it is watched by.
pub type Watched = Map<c_int, epoll::Event>;

/// The `epoll` sets of the process, each under its descriptor.
pub type Sets = Map<c_int, Watched>;

/// What `epoll_ctl` answers on one set if it doesn't refuse the call for a reason of its own, and
/// the descriptors that are watched afterwards. The operation is 1 to add, 2 to remove and 3 to
/// modify.
pub open spec fn epoll_change(watched: Watched, call: epoll::Ctl, left: c_int) -> (
    Reply,
    Watched,
) {
    if call.op == 1 {
        match call.event {
            None => (failure(invalid()), watched),
            Some(event) => if watched.contains_key(call.fd) {
                (failure(errno::already_exists()), watched)
            } else {
                (success(left), watched.insert(call.fd, event))
            },
        }
    } else if call.op == 2 {
        if watched.contains_key(call.fd) {
            (success(left), watched.remove(call.fd))
        } else {
            (failure(errno::no_entry()), watched)
        }
    } else if call.op == 3 {
        match call.event {
            None => (failure(invalid()), watched),
            Some(event) => if watched.contains_key(call.fd) {
                (success(left), watched.insert(call.fd, event))
            } else {
                (failure(errno::no_entry()), watched)
            },
        }
    } else {
        (failure(invalid()), watched)
    }
}

/// What `epoll_ctl` answers, and the sets afterwards. The call is about the set whose descriptor
/// it names.
pub open spec fn epoll_ctl(sets: Sets, call: epoll::Ctl, mood: Mood) -> (Reply, Sets) {
    if mood.refused is Some {
        (failure(mood.refused.unwrap()), sets)
    } else if !sets.contains_key(call.epfd) {
        (failure(errno::bad_descriptor()), sets)
    } else {
        let (reply, after) = epoll_change(sets[call.epfd], call, mood.left);
        (reply, sets.insert(call.epfd, after))
    }
}

/// `add` on `epoll`: its result, and the sets afterwards.
pub open spec fn epoll_add(
    sets: Sets,
    poll: epoll::Model,
    fd: c_int,
    ty: Type,
    mood: Mood,
) -> (Result<(), Error>, Sets) {
    match poll.add_request(fd, ty) {
        Err(error) => (Err(error), sets),
        Ok(call) => {
            let (reply, after) = epoll_ctl(sets, call, mood);
            (epoll::add_outcome(reply.r, reply.err), after)
        },
    }
}

/// `modify` on `epoll`: its result, and the sets afterwards.
pub open spec fn epoll_modify(
    sets: Sets,
    poll: epoll::Model,
    fd: c_int,
    ty: Type,
    mood: Mood,
) -> (Result<(), Error>, Sets) {
    match poll.modify_request(fd, ty) {
        Err(error) => (Err(error), sets),
        Ok(call) => {
            let (reply, after) = epoll_ctl(sets, call, mood);
            (epoll::change_outcome(reply.r, reply.err), after)
        },
    }
}

/// `delete` on `epoll`: its result, and the sets afterwards.
pub open spec fn epoll_delete(sets: Sets, poll: epoll::Model, fd: c_int, mood: Mood) -> (
    Result<(), Error>,
    Sets,
) {
    match poll.delete_request(fd) {
        Err(error) => (Err(error), sets),
        Ok(call) => {
            let (reply, after) = epoll_ctl(sets, call, mood);
            (epoll::change_outcome(reply.r, reply.err), after)
        },
    }
}

/// The poll set can be changed: no wait is running, and the kernel has its `epoll` set.
pub open spec fn epoll_idle(sets: Sets, poll: epoll::Model) -> bool {
    &&& !poll.state.running()
    &&& sets.contains_key(poll.epfd)
}

/// `epoll`: while a wait is running, `add`, `modify` and `delete` answer `Waiting` and reach no
/// set.
pub proof fn epoll_changes_are_refused_while_waiting(
    sets: Sets,
    poll: epoll::Model,
    fd: c_int,
    ty: Type,
    mood: Mood,
)
    requires
        poll.state.running(),
    ensures
        epoll_add(sets, poll, fd, ty, mood) == (Err::<(), Error>(Error::Waiting), sets),
        epoll_modify(sets, poll, fd, ty, mood) == (Err::<(), Error>(Error::Waiting), sets),
        epoll_delete(sets, poll, fd, mood) == (Err::<(), Error>(Error::Waiting), sets),
{
}

/// `epoll`: whatever the kernel refuses is reported as an error, and an error leaves every
/// descriptor of every set watched as it was.
pub proof fn epoll_errors_change_nothing(
    sets: Sets,
    poll: epoll::Model,
    fd: c_int,
    ty: Type,
    mood: Mood,
)
    ensures
        mood.refused is Some ==> epoll_add(sets, poll, fd, ty, mood).0 is Err,
        mood.refused is Some ==> epoll_modify(sets, poll, fd, ty, mood).0 is Err,
        mood.refused is Some ==> epoll_delete(sets, poll, fd, mood).0 is Err,
        epoll_add(sets, poll, fd, ty, mood).0 is Err ==> epoll_add(
            sets,
            poll,
            fd,
            ty,
            mood,
        ).1 == sets,
        epoll_modify(sets, poll, fd, ty, mood).0 is Err ==> epoll_modify(
            sets,
            poll,
            fd,
            ty,
            mood,
        ).1 == sets,
        epoll_delete(sets, poll, fd, mood).0 is Err ==> epoll_delete(
            sets,
            poll,
            fd,
            mood,
        ).1 == sets,
{
    if sets.contains_key(poll.epfd) {
        assert(sets.insert(poll.epfd, sets[poll.epfd]) =~= sets);
    }
}

/// `epoll`: whatever they answer, `add`, `modify` and `delete` touch no set but that of the poll
/// set they are called on, and in it no descriptor but the one that they are about.
pub proof fn epoll_changes_touch_only_their_own(
    sets: Sets,
    poll: epoll::Model,
    fd: c_int,
    ty: Type,
    mood: Mood,
    epfd: c_int,
    other: c_int,
)
    requires
        epfd != poll.epfd || other != fd,
        sets.contains_key(epfd),
    ensures
        epoll_add(sets, poll, fd, ty, mood).1.dom() == sets.dom(),
        epoll_modify(sets, poll, fd, ty, mood).1.dom() == sets.dom(),
        epoll_delete(sets, poll, fd, mood).1.dom() == sets.dom(),
        epoll_add(sets, poll, fd, ty, mood).1[epfd].contains_key(other)
            == sets[epfd].contains_key(other),
        epoll_add(sets, poll, fd, ty, mood).1[epfd][other] == sets[epfd][other],
        epoll_modify(sets, poll, fd, ty, mood).1[epfd].contains_key(other)
            == sets[epfd].contains_key(other),
        epoll_modify(sets, poll, fd, ty, mood).1[epfd][other] == sets[epfd][other],
        epoll_delete(sets, poll, fd, mood).1[epfd].contains_key(other)
            == sets[epfd].contains_key(other),
        epoll_delete(sets, poll, fd, mood).1[epfd][other] == sets[epfd][other]
            || !sets[epfd].contains_key(other),
{
    assert(epoll_add(sets, poll, fd, ty, mood).1.dom() =~= sets.dom());
    assert(epoll_modify(sets, poll, fd, ty, mood).1.dom() =~= sets.dom());
    assert(epoll_delete(sets, poll, fd, mood).1.dom() =~= sets.dom());
}

/// `epoll`: `add` watches a descriptor that isn't in the set, and says `Exists` of one that is,
/// which stays as it was. This is so whatever error number was left over from before, and every
/// other set stays as it was.
pub proof fn epoll_add_watches_or_says_exists(
    sets: Sets,
    poll: epoll::Model,
    fd: c_int,
    ty: Type,
    mood: Mood,
)
    requires
        epoll_idle(sets, poll),
        mood.refused is None,
    ensures
        epoll_add(sets, poll, fd, ty, mood) == (if sets[poll.epfd].contains_key(fd) {
            (Err::<(), Error>(Error::Exists), sets)
        } else {
            (
                Ok::<(), Error>(()),
                sets.insert(poll.epfd, sets[poll.epfd].insert(fd, epoll::watch(fd, ty))),
            )
        }),
{
    assert(sets.insert(poll.epfd, sets[poll.epfd]) =~= sets);
}

/// `epoll`: `modify` replaces how a descriptor in the set is watched, however that was, and says
/// `DoesntExist` of one that isn't in the set, which stays out. This is so whatever error number
/// was left over from before, and every other set stays as it was.
pub proof fn epoll_modify_replaces_or_says_doesnt_exist(
    sets: Sets,
    poll: epoll::Model,
    fd: c_int,
    ty: Type,
    mood: Mood,
)
    requires
        epoll_idle(sets, poll),
        mood.refused is None,
    ensures
        epoll_modify(sets, poll, fd, ty, mood) == (if sets[poll.epfd].contains_key(fd) {
            (
                Ok::<(), Error>(()),
                sets.insert(poll.epfd, sets[poll.epfd].insert(fd, epoll::watch(fd, ty))),
            )
        } else {
            (Err::<(), Error>(Error::DoesntExist), sets)
        }),
{
    assert(sets.insert(poll.epfd, sets[poll.epfd]) =~= sets);
}

/// `epoll`: what `modify` leaves depends on the new watch type alone. Adding a descriptor with
/// one type and modifying it to another is adding it with the other, and modifying it once more
/// changes nothing. No error number that is left over makes a difference.
pub proof fn epoll_modify_forgets_the_old_type(
    sets: Sets,
    poll: epoll::Model,
    fd: c_int,
    old_ty: Type,
    new_ty: Type,
    mood: Mood,
    next: Mood,
)
    requires
        epoll_idle(sets, poll),
        !sets[poll.epfd].contains_key(fd),
        mood.refused is None,
        next.refused is None,
    ensures
        ({
            let added = epoll_add(sets, poll, fd, old_ty, mood);
            let modified = epoll_modify(added.1, poll, fd, new_ty, next);
            &&& added.0 == Ok::<(), Error>(())
            &&& modified == epoll_add(sets, poll, fd, new_ty, next)
            &&& modified == epoll_add(sets, poll, fd, new_ty, mood)
            &&& modified.0 == Ok::<(), Error>(())
            &&& epoll_modify(modified.1, poll, fd, new_ty, mood) == modified
        }),
{
    let watched = sets[poll.epfd];
    let added = epoll_add(sets, poll, fd, old_ty, mood);
    let modified = epoll_modify(added.1, poll, fd, new_ty, next);
    epoll_add_watches_or_says_exists(sets, poll, fd, old_ty, mood);
    epoll_add_watches_or_says_exists(sets, poll, fd, new_ty, mood);
    epoll_add_watches_or_says_exists(sets, poll, fd, new_ty, next);
    epoll_modify_replaces_or_says_doesnt_exist(added.1, poll, fd, new_ty, next);
    assert(added.1[poll.epfd].insert(fd, epoll::watch(fd, new_ty)) =~= watched.insert(
        fd,
        epoll::watch(fd, new_ty),
    ));
    assert(modified.1 =~= epoll_add(sets, poll, fd, new_ty, next).1);
    epoll_modify_replaces_or_says_doesnt_exist(modified.1, poll, fd, new_ty, mood);
    assert(modified.1[poll.epfd].insert(fd, epoll::watch(fd, new_ty))
        =~= modified.1[poll.epfd]);
    assert(epoll_modify(modified.1, poll, fd, new_ty, mood).1 =~= modified.1);
}

/// `epoll`: `delete` takes a descriptor out of the set and leaves every other one as it is, and
/// says `DoesntExist` of one that isn't in the set. This is so whatever error number was left
/// over from before, and every other set stays as it was.
pub proof fn epoll_delete_removes_or_says_doesnt_exist(
    sets: Sets,
    poll: epoll::Model,
    fd: c_int,
    mood: Mood,
)
    requires
        epoll_idle(sets, poll),
        mood.refused is None,
    ensures
        epoll_delete(sets, poll, fd, mood) == (if sets[poll.epfd].contains_key(fd) {
            (Ok::<(), Error>(()), sets.insert(poll.epfd, sets[poll.epfd].remove(fd)))
        } else {
            (Err::<(), Error>(Error::DoesntExist), sets)
        }),
{
    assert(sets.insert(poll.epfd, sets[poll.epfd]) =~= sets);
}

/// `epoll`: `delete` undoes `add`. The watched descriptors of every set are those from before, so
/// that the same `add` succeeds again. No error number that is left over makes a difference.
pub proof fn epoll_delete_undoes_add(
    sets: Sets,
    poll: epoll::Model,
    fd: c_int,
    ty: Type,
    mood: Mood,
    next: Mood,
)
    requires
        epoll_idle(sets, poll),
        !sets[poll.epfd].contains_key(fd),
        mood.refused is None,
        next.refused is None,
    ensures
        ({
            let added = epoll_add(sets, poll, fd, ty, mood);
            let deleted = epoll_delete(added.1, poll, fd, next);
            &&& added.0 == Ok::<(), Error>(())
            &&& deleted == (Ok::<(), Error>(()), sets)
            &&& epoll_add(deleted.1, poll, fd, ty, mood) == added
        }),
{
    let added = epoll_add(sets, poll, fd, ty, mood);
    epoll_add_watches_or_says_exists(sets, poll, fd, ty, mood);
    epoll_delete_removes_or_says_doesnt_exist(added.1, poll, fd, next);
    assert(added.1[poll.epfd].remove(fd) =~= sets[poll.epfd]);
    assert(epoll_delete(added.1, poll, fd, next).1 =~= sets);
}

/// `epoll`: the last call of making a set has the kernel watch the abort descriptor for reading,
/// in the set that was just made and in no other.
pub proof fn epoll_setup_watches_the_abort_descriptor(
    sets: Sets,
    step: epoll::NewWatch,
    mood: Mood,
)
    requires
        sets.contains_key(step.epfd),
        !sets[step.epfd].contains_key(step.abort),
        mood.refused is None,
    ensures
        ({
            let (reply, after) = epoll_ctl(sets, step.call(), mood);
            &&& step.after(reply.r) matches Ok(poll) && poll.epfd == step.epfd && poll.abort
                == step.abort && poll.state.max == step.max
            &&& after == sets.insert(
                step.epfd,
                sets[step.epfd].insert(step.abort, epoll::watch(step.abort, Type::Read)),
            )
        }),
{
}

/// The filters of a queue, each with the identifier that it belongs to.
pub type Filters = Set<(usize, c_short)>;

/// The queues of the process, each under its descriptor.
pub type Queues = Map<c_int, Filters>;

/// How the kernel takes each change of an operation, in order.
pub type Moods = spec_fn(int) -> Mood;

/// The kernel refuses nothing for a reason of its own. What is left over as the error number is
/// anyone's guess.
pub open spec fn granted(moods: Moods) -> bool {
    forall|i: int| (#[trigger] moods(i)).refused is None
}

/// A reason of the kernel's own is never that the filter is missing.
pub open spec fn own_reasons(moods: Moods) -> bool {
    forall|i: int| (#[trigger] moods(i)).refused != Some(errno::no_entry())
}

/// What `kevent` answers to one change, and the filters afterwards. The filters are -1 for reading
/// and -2 for writing. A filter that is added, by the flag 1, stays if it is there already; one
/// that is removed, by the flag 2, or enabled, by the flag 4, has to be there.
pub open spec fn kevent_change(filters: Filters, change: kqueue::Event, mood: Mood) -> (
    Reply,
    Filters,
) {
    let filter = (change.ident, change.filter);
    if mood.refused is Some {
        (failure(mood.refused.unwrap()), filters)
    } else if change.filter != -1 && change.filter != -2 {
        (failure(invalid()), filters)
    } else if change.flags == 1 {
        (success(mood.left), filters.insert(filter))
    } else if change.flags == 2 {
        if filters.contains(filter) {
            (success(mood.left), filters.remove(filter))
        } else {
            (failure(errno::no_entry()), filters)
        }
    } else if change.flags == 4 {
        if filters.contains(filter) {
            (success(mood.left), filters)
        } else {
            (failure(errno::no_entry()), filters)
        }
    } else {
        (failure(invalid()), filters)
    }
}

/// What `kevent` answers to changes, of which the first is number `from` of its operation, and
/// the filters afterwards. It stops at the first change that fails.
pub open spec fn kevent(
    filters: Filters,
    changes: Seq<kqueue::Event>,
    moods: Moods,
    from: int,
) -> (Reply, Filters)
    decreases changes.len(),
{
    if changes.len() == 0 {
        (success(moods(from).left), filters)
    } else {
        let (reply, after) = kevent_change(filters, changes[0], moods(from));
        if reply.r == -1 {
            (reply, after)
        } else {
            kevent(after, changes.drop_first(), moods, from + 1)
        }
    }
}

/// What `kevent` answers to a call that only makes changes, and the queues afterwards. The call is
/// about the queue that it names.
pub open spec fn kevent_call(queues: Queues, call: kqueue::Request, moods: Moods, from: int) -> (
    Reply,
    Queues,
) {
    if !queues.contains_key(call.kq) {
        (failure(errno::bad_descriptor()), queues)
    } else if call.nevents != 0 {
        (failure(invalid()), queues)
    } else {
        let (reply, after) = kevent(queues[call.kq], call.changes, moods, from);
        (reply, queues.insert(call.kq, after))
    }
}

/// The read filter of a descriptor.
pub open spec fn read_filter(fd: c_int) -> (usize, c_short) {
    (fd as usize, (-1) as c_short)
}

/// The write filter of a descriptor.
pub open spec fn write_filter(fd: c_int) -> (usize, c_short) {
    (fd as usize, (-2) as c_short)
}

/// The descriptor is in the set: it has a filter.
pub open spec fn in_set(filters: Filters, fd: c_int) -> bool {
    filters.contains(read_filter(fd)) || filters.contains(write_filter(fd))
}

/// The filters without those of the descriptor.
pub open spec fn without(filters: Filters, fd: c_int) -> Filters {
    filters.remove(read_filter(fd)).remove(write_filter(fd))
}

/// The filters, to which those that the watch type names are added.
pub open spec fn adding(filters: Filters, fd: c_int, ty: Type) -> Filters {
    match ty {
        Type::Read => filters.insert(read_filter(fd)),
        Type::Write => filters.insert(write_filter(fd)),
        Type::ReadWrite => filters.insert(read_filter(fd)).insert(write_filter(fd)),
    }
}

/// The filters, in which those of the descriptor are just what the watch type names.
pub open spec fn watching(filters: Filters, fd: c_int, ty: Type) -> Filters {
    adding(without(filters, fd), fd, ty)
}

/// `add` on `kqueue`, with all its steps: its result, and the queues afterwards.
pub open spec fn kqueue_add(
    queues: Queues,
    poll: kqueue::Model,
    fd: c_int,
    ty: Type,
    moods: Moods,
) -> (Result<(), Error>, Queues) {
    match poll.add_request(fd, ty) {
        Err(error) => (Err(error), queues),
        Ok(step) => {
            let (reply, queues) = kevent_call(queues, step.call(), moods, 0);
            match step.after(reply.r, reply.err) {
                Err(error) => (Err(error), queues),
                Ok(step) => {
                    let (reply, queues) = kevent_call(queues, step.call(), moods, 1);
                    match step.after(reply.r, reply.err) {
                        Err(error) => (Err(error), queues),
                        Ok(step) => {
                            let (reply, queues) = kevent_call(queues, step.call(), moods, 2);
                            (kqueue::add_outcome(reply.r, reply.err), queues)
                        },
                    }
                },
            }
        },
    }
}

/// `modify` on `kqueue`, with all its steps: its result, and the queues afterwards.
pub open spec fn kqueue_modify(
    queues: Queues,
    poll: kqueue::Model,
    fd: c_int,
    ty: Type,
    moods: Moods,
) -> (Result<(), Error>, Queues) {
    match poll.modify_request(fd, ty) {
        Err(error) => (Err(error), queues),
        Ok(step) => {
            let (reply, queues) = kevent_call(queues, step.call(), moods, 0);
            match step.after(reply.r, reply.err) {
                Err(error) => (Err(error), queues),
                Ok(step) => {
                    let (reply, queues) = kevent_call(queues, step.call(), moods, 1);
                    match step.after(reply.r, reply.err) {
                        Err(error) => (Err(error), queues),
                        Ok(step) => {
                            let (reply, queues) = kevent_call(queues, step.call(), moods, 2);
                            match step.after(reply.r, reply.err) {
                                Err(error) => (Err(error), queues),
                                Ok(None) => (Ok(()), queues),
                                Ok(Some(step)) => {
                                    let (reply, queues) = kevent_call(
                                        queues,
                                        step.call(),
                                        moods,
                                        4,
                                    );
                                    (kqueue::rest_outcome(reply.r, reply.err), queues)
                                },
                            }
                        },
                    }
                },
            }
        },
    }
}

/// `delete` on `kqueue`, with both its steps: its result, and the queues afterwards.
pub open spec fn kqueue_delete(queues: Queues, poll: kqueue::Model, fd: c_int, moods: Moods) -> (
    Result<(), Error>,
    Queues,
) {
    match poll.delete_request(fd) {
        Err(error) => (Err(error), queues),
        Ok(step) => {
            let (reply, queues) = kevent_call(queues, step.call(), moods, 0);
            match step.after(reply.r, reply.err) {
                Err(error) => (Err(error), queues),
                Ok(step) => {
                    let (reply, queues) = kevent_call(queues, step.call(), moods, 1);
                    (
                        kqueue::write_filter_outcome(step.not_found, reply.r, reply.err),
                        queues,
                    )
                },
            }
        },
    }
}

/// The poll set can be changed: no wait is running, and the kernel has its queue.
pub open spec fn kqueue_idle(queues: Queues, poll: kqueue::Model) -> bool {
    &&& !poll.state.running()
    &&& queues.contains_key(poll.kq)
}

/// `kqueue`: while a wait is running, `add`, `modify` and `delete` answer `Waiting` and reach no
/// queue.
pub proof fn kqueue_changes_are_refused_while_waiting(
    queues: Queues,
    poll: kqueue::Model,
    fd: c_int,
    ty: Type,
    moods: Moods,
)
    requires
        poll.state.running(),
    ensures
        kqueue_add(queues, poll, fd, ty, moods) == (Err::<(), Error>(Error::Waiting), queues),
        kqueue_modify(queues, poll, fd, ty, moods) == (Err::<(), Error>(Error::Waiting), queues),
        kqueue_delete(queues, poll, fd, moods) == (Err::<(), Error>(Error::Waiting), queues),
{
}

/// One change at a time is answered as that change.
proof fn lemma_single(filters: Filters, change: kqueue::Event, moods: Moods, from: int)
    ensures
        kevent(filters, seq![change], moods, from).1 == kevent_change(
            filters,
            change,
            moods(from),
        ).1,
        kevent(filters, seq![change], moods, from).0.r == kevent_change(
            filters,
            change,
            moods(from),
        ).0.r,
        kevent(filters, seq![change], moods, from).0.r == -1 ==> kevent(
            filters,
            seq![change],
            moods,
            from,
        ).0.err == kevent_change(filters, change, moods(from)).0.err,
{
    assert(seq![change].drop_first() =~= Seq::empty());
    reveal_with_fuel(kevent, 2);
}

/// The changes that watch a descriptor take no filter away and add none but those that the watch
/// type names: all of them, if they succeed.
proof fn lemma_watch(filters: Filters, fd: c_int, ty: Type, moods: Moods, from: int)
    ensures
        ({
            let (reply, after) = kevent(filters, kqueue::watch(fd, ty), moods, from);
            &&& reply.r != -1 ==> after == adding(filters, fd, ty)
            &&& reply.r == -1 ==> filters.subset_of(after) && after.subset_of(
                adding(filters, fd, ty),
            )
            &&& reply.r == -1 && !(ty is ReadWrite) ==> after == filters
            &&& moods(from).refused is None && moods(from + 1).refused is None ==> reply.r != -1
        }),
{
    let read = kqueue::change(fd, kqueue::EVFILT_READ, kqueue::EV_ADD);
    let write = kqueue::change(fd, kqueue::EVFILT_WRITE, kqueue::EV_ADD);
    lemma_single(filters, read, moods, from);
    lemma_single(filters, write, moods, from);
    lemma_single(filters.insert(read_filter(fd)), write, moods, from + 1);
    assert(seq![read, write].drop_first() =~= seq![write]);
}

/// Searches change nothing in any queue, and find a filter exactly if it is there.
proof fn lemma_searches(
    queues: Queues,
    kq: c_int,
    fd: c_int,
    filter: c_short,
    moods: Moods,
    from: int,
)
    requires
        queues.contains_key(kq),
        filter == -1 || filter == -2,
    ensures
        ({
            let search = kqueue::change(fd, filter, kqueue::EV_ENABLE);
            let call = kqueue::Request { kq, changes: seq![search], nevents: 0 };
            let (reply, after) = kevent_call(queues, call, moods, from);
            &&& after == queues
            &&& moods(from).refused is Some ==> reply.r == -1 && reply.err
                == moods(from).refused.unwrap()
            &&& moods(from).refused is None ==> (reply.r != -1 <==> queues[kq].contains(
                (fd as usize, filter),
            ))
            &&& moods(from).refused is None && reply.r == -1 ==> reply.err == errno::no_entry()
        }),
{
    let search = kqueue::change(fd, filter, kqueue::EV_ENABLE);
    lemma_single(queues[kq], search, moods, from);
    assert(queues.insert(kq, queues[kq]) =~= queues);
}

/// `kqueue`: an `add` that succeeds has given a descriptor that wasn't in the set just the
/// filters that the watch type names. One that fails, for whatever reason, takes no filter away
/// and adds none but those; if the type names one filter, it changes nothing. No queue but that
/// of the poll set is touched.
pub proof fn kqueue_add_keeps_what_was_there(
    queues: Queues,
    poll: kqueue::Model,
    fd: c_int,
    ty: Type,
    moods: Moods,
)
    requires
        kqueue_idle(queues, poll),
        own_reasons(moods),
    ensures
        ({
            let (result, afterwards) = kqueue_add(queues, poll, fd, ty, moods);
            let filters = queues[poll.kq];
            let after = afterwards[poll.kq];
            &&& afterwards == queues.insert(poll.kq, after)
            &&& result is Ok ==> !in_set(filters, fd) && after == watching(filters, fd, ty)
            &&& result is Err ==> filters.subset_of(after) && after.subset_of(
                adding(filters, fd, ty),
            )
            &&& result is Err && !(ty is ReadWrite) ==> after == filters
            &&& in_set(filters, fd) ==> result is Err && after == filters
            &&& (moods(0).refused is Some || moods(1).refused is Some) ==> result is Err && after
                == filters
        }),
{
    let filters = queues[poll.kq];
    lemma_searches(queues, poll.kq, fd, kqueue::EVFILT_READ, moods, 0);
    lemma_searches(queues, poll.kq, fd, kqueue::EVFILT_WRITE, moods, 1);
    lemma_watch(filters, fd, ty, moods, 2);
    if !in_set(filters, fd) {
        assert(without(filters, fd) =~= filters);
    }
    let afterwards = kqueue_add(queues, poll, fd, ty, moods).1;
    assert(afterwards =~= queues.insert(poll.kq, afterwards[poll.kq]));
}

/// `kqueue`: a `modify` that succeeds has left a descriptor that was in the set with just the
/// filters that the watch type names. One that fails, for whatever reason, takes no filter away
/// and adds none but those. No queue but that of the poll set is touched.
pub proof fn kqueue_modify_keeps_what_was_there(
    queues: Queues,
    poll: kqueue::Model,
    fd: c_int,
    ty: Type,
    moods: Moods,
)
    requires
        kqueue_idle(queues, poll),
        own_reasons(moods),
    ensures
        ({
            let (result, afterwards) = kqueue_modify(queues, poll, fd, ty, moods);
            let filters = queues[poll.kq];
            let after = afterwards[poll.kq];
            &&& afterwards == queues.insert(poll.kq, after)
            &&& result is Ok ==> in_set(filters, fd) && after == watching(filters, fd, ty)
            &&& result is Err ==> filters.subset_of(after) && after.subset_of(
                adding(filters, fd, ty),
            )
            &&& !in_set(filters, fd) ==> result is Err && after == filters
            &&& (moods(0).refused is Some || moods(1).refused is Some) ==> result is Err && after
                == filters
        }),
{
    let filters = queues[poll.kq];
    lemma_searches(queues, poll.kq, fd, kqueue::EVFILT_READ, moods, 0);
    lemma_searches(queues, poll.kq, fd, kqueue::EVFILT_WRITE, moods, 1);
    lemma_watch(filters, fd, ty, moods, 2);
    let both = adding(filters, fd, ty);
    let read = kqueue::change(fd, kqueue::EVFILT_READ, kqueue::EV_DELETE);
    let write = kqueue::change(fd, kqueue::EVFILT_WRITE, kqueue::EV_DELETE);
    lemma_single(both, read, moods, 4);
    lemma_single(both, write, moods, 4);
    assert(both.remove(write_filter(fd)) =~= watching(filters, fd, ty) || !(ty is Read));
    assert(both.remove(read_filter(fd)) =~= watching(filters, fd, ty) || !(ty is Write));
    assert(both =~= watching(filters, fd, ty) || !(ty is ReadWrite));
    if !both.contains(write_filter(fd)) {
        assert(both =~= both.remove(write_filter(fd)));
    }
    if !both.contains(read_filter(fd)) {
        assert(both =~= both.remove(read_filter(fd)));
    }
    let afterwards = kqueue_modify(queues, poll, fd, ty, moods).1;
    assert(afterwards =~= queues.insert(poll.kq, afterwards[poll.kq]));
}

/// `kqueue`: a `delete` that succeeds has taken a descriptor that was in the set out of it. One
/// that fails, for whatever reason, adds no filter and takes at most the read filter away; if
/// its first call is refused, or there was no read filter, it changes nothing. No queue but that
/// of the poll set is touched.
pub proof fn kqueue_delete_takes_only_its_own(
    queues: Queues,
    poll: kqueue::Model,
    fd: c_int,
    moods: Moods,
)
    requires
        kqueue_idle(queues, poll),
        own_reasons(moods),
    ensures
        ({
            let (result, afterwards) = kqueue_delete(queues, poll, fd, moods);
            let filters = queues[poll.kq];
            let after = afterwards[poll.kq];
            &&& afterwards == queues.insert(poll.kq, after)
            &&& result is Ok ==> in_set(filters, fd) && after == without(filters, fd)
            &&& result is Err ==> after == filters || after == filters.remove(read_filter(fd))
            &&& result is Err && (moods(0).refused is Some || !filters.contains(read_filter(fd)))
                ==> after == filters
            &&& (moods(0).refused is Some || moods(1).refused is Some) ==> result is Err
            &&& !in_set(filters, fd) ==> result is Err && after == filters
        }),
{
    let filters = queues[poll.kq];
    let read = kqueue::change(fd, kqueue::EVFILT_READ, kqueue::EV_DELETE);
    let write = kqueue::change(fd, kqueue::EVFILT_WRITE, kqueue::EV_DELETE);
    let between = filters.remove(read_filter(fd));
    lemma_single(filters, read, moods, 0);
    lemma_single(filters, write, moods, 1);
    lemma_single(between, write, moods, 1);
    if !filters.contains(read_filter(fd)) {
        assert(between =~= filters);
    }
    if !between.contains(write_filter(fd)) {
        assert(without(filters, fd) =~= between);
    }
    let afterwards = kqueue_delete(queues, poll, fd, moods).1;
    assert(afterwards =~= queues.insert(poll.kq, afterwards[poll.kq]));
}

/// `kqueue`: as long as the kernel refuses nothing for a reason of its own, `add` gives a
/// descriptor that isn't in the set just the filters that the watch type names, and says
/// `Exists` of one that is in the set, which stays as it was. This is so whatever error number
/// each call found left over from before.
pub proof fn kqueue_add_watches_or_says_exists(
    queues: Queues,
    poll: kqueue::Model,
    fd: c_int,
    ty: Type,
    moods: Moods,
)
    requires
        kqueue_idle(queues, poll),
        granted(moods),
    ensures
        kqueue_add(queues, poll, fd, ty, moods) == (if in_set(queues[poll.kq], fd) {
            (Err::<(), Error>(Error::Exists), queues)
        } else {
            (
                Ok::<(), Error>(()),
                queues.insert(poll.kq, watching(queues[poll.kq], fd, ty)),
            )
        }),
{
    let filters = queues[poll.kq];
    lemma_searches(queues, poll.kq, fd, kqueue::EVFILT_READ, moods, 0);
    lemma_searches(queues, poll.kq, fd, kqueue::EVFILT_WRITE, moods, 1);
    lemma_watch(filters, fd, ty, moods, 2);
    assert(moods(2).refused is None && moods(3).refused is None);
    kqueue_add_keeps_what_was_there(queues, poll, fd, ty, moods);
    assert(queues.insert(poll.kq, filters) =~= queues);
}

/// `kqueue`: as long as the kernel refuses nothing for a reason of its own, `modify` leaves a
/// descriptor in the set with just the filters that the watch type names, whichever it had, and
/// says `DoesntExist` of one that isn't in the set, which stays out. This is so whatever error
/// number each call found left over from before.
pub proof fn kqueue_modify_replaces_or_says_doesnt_exist(
    queues: Queues,
    poll: kqueue::Model,
    fd: c_int,
    ty: Type,
    moods: Moods,
)
    requires
        kqueue_idle(queues, poll),
        granted(moods),
    ensures
        kqueue_modify(queues, poll, fd, ty, moods) == (if in_set(queues[poll.kq], fd) {
            (
                Ok::<(), Error>(()),
                queues.insert(poll.kq, watching(queues[poll.kq], fd, ty)),
            )
        } else {
            (Err::<(), Error>(Error::DoesntExist), queues)
        }),
{
    let filters = queues[poll.kq];
    lemma_searches(queues, poll.kq, fd, kqueue::EVFILT_READ, moods, 0);
    lemma_searches(queues, poll.kq, fd, kqueue::EVFILT_WRITE, moods, 1);
    lemma_watch(filters, fd, ty, moods, 2);
    assert(moods(2).refused is None && moods(3).refused is None && moods(4).refused is None);
    let both = adding(filters, fd, ty);
    lemma_single(
        both,
        kqueue::change(fd, kqueue::EVFILT_READ, kqueue::EV_DELETE),
        moods,
        4,
    );
    lemma_single(
        both,
        kqueue::change(fd, kqueue::EVFILT_WRITE, kqueue::EV_DELETE),
        moods,
        4,
    );
    kqueue_modify_keeps_what_was_there(queues, poll, fd, ty, moods);
    assert(queues.insert(poll.kq, filters) =~= queues);
}

/// `kqueue`: as long as the kernel refuses nothing for a reason of its own, `delete` takes a
/// descriptor out of the set, whichever filters it had, and leaves every other one as it is. It
/// says `DoesntExist` of one that isn't in the set. This is so whatever error number each call
/// found left over from before.
pub proof fn kqueue_delete_removes_or_says_doesnt_exist(
    queues: Queues,
    poll: kqueue::Model,
    fd: c_int,
    moods: Moods,
)
    requires
        kqueue_idle(queues, poll),
        granted(moods),
    ensures
        kqueue_delete(queues, poll, fd, moods) == (if in_set(queues[poll.kq], fd) {
            (Ok::<(), Error>(()), queues.insert(poll.kq, without(queues[poll.kq], fd)))
        } else {
            (Err::<(), Error>(Error::DoesntExist), queues)
        }),
        !in_set(kqueue_delete(queues, poll, fd, moods).1[poll.kq], fd),
{
    let filters = queues[poll.kq];
    let read = kqueue::change(fd, kqueue::EVFILT_READ, kqueue::EV_DELETE);
    let write = kqueue::change(fd, kqueue::EVFILT_WRITE, kqueue::EV_DELETE);
    lemma_single(filters, read, moods, 0);
    lemma_single(filters, write, moods, 1);
    lemma_single(filters.remove(read_filter(fd)), write, moods, 1);
    assert(moods(0).refused is None && moods(1).refused is None);
    kqueue_delete_takes_only_its_own(queues, poll, fd, moods);
    assert(queues.insert(poll.kq, filters) =~= queues);
}

/// `kqueue`: in what `add` and `modify` leave, the descriptor has the filters that the watch type
/// names and no other, and every other descriptor has those that it had.
pub proof fn kqueue_watching_is_just_the_type(
    filters: Filters,
    fd: c_int,
    ty: Type,
    other: (usize, c_short),
)
    ensures
        watching(filters, fd, ty).contains(read_filter(fd)) <==> ty.wants_read(),
        watching(filters, fd, ty).contains(write_filter(fd)) <==> ty.wants_write(),
        other != read_filter(fd) && other != write_filter(fd) ==> (watching(
            filters,
            fd,
            ty,
        ).contains(other) <==> filters.contains(other)),
        other != read_filter(fd) && other != write_filter(fd) ==> (without(
            filters,
            fd,
        ).contains(other) <==> filters.contains(other)),
{
}

/// `kqueue`: what `modify` leaves depends on the new watch type alone, as on `epoll`.
pub proof fn kqueue_modify_forgets_the_old_type(
    queues: Queues,
    poll: kqueue::Model,
    fd: c_int,
    old_ty: Type,
    new_ty: Type,
    moods: Moods,
    next: Moods,
)
    requires
        kqueue_idle(queues, poll),
        !in_set(queues[poll.kq], fd),
        granted(moods),
        granted(next),
    ensures
        ({
            let added = kqueue_add(queues, poll, fd, old_ty, moods);
            let modified = kqueue_modify(added.1, poll, fd, new_ty, next);
            &&& added.0 == Ok::<(), Error>(())
            &&& modified == kqueue_add(queues, poll, fd, new_ty, next)
            &&& modified == kqueue_add(queues, poll, fd, new_ty, moods)
            &&& modified.0 == Ok::<(), Error>(())
            &&& kqueue_modify(modified.1, poll, fd, new_ty, moods) == modified
        }),
{
    let filters = queues[poll.kq];
    let first = watching(filters, fd, old_ty);
    let second = watching(filters, fd, new_ty);
    kqueue_add_watches_or_says_exists(queues, poll, fd, old_ty, moods);
    kqueue_add_watches_or_says_exists(queues, poll, fd, new_ty, moods);
    kqueue_add_watches_or_says_exists(queues, poll, fd, new_ty, next);
    kqueue_modify_replaces_or_says_doesnt_exist(
        queues.insert(poll.kq, first),
        poll,
        fd,
        new_ty,
        next,
    );
    kqueue_modify_replaces_or_says_doesnt_exist(
        queues.insert(poll.kq, second),
        poll,
        fd,
        new_ty,
        moods,
    );
    kqueue_watching_is_just_the_type(filters, fd, old_ty, read_filter(fd));
    kqueue_watching_is_just_the_type(filters, fd, new_ty, read_filter(fd));
    assert(watching(first, fd, new_ty) =~= second);
    assert(watching(second, fd, new_ty) =~= second);
    assert(queues.insert(poll.kq, first).insert(poll.kq, second) =~= queues.insert(
        poll.kq,
        second,
    ));
    assert(queues.insert(poll.kq, second).insert(poll.kq, second) =~= queues.insert(
        poll.kq,
        second,
    ));
}

/// `kqueue`: `delete` undoes `add`. The filters of every queue are those from before, so that the
/// same `add` succeeds again.
pub proof fn kqueue_delete_undoes_add(
    queues: Queues,
    poll: kqueue::Model,
    fd: c_int,
    ty: Type,
    moods: Moods,
    next: Moods,
)
    requires
        kqueue_idle(queues, poll),
        !in_set(queues[poll.kq], fd),
        granted(moods),
        granted(next),
    ensures
        ({
            let added = kqueue_add(queues, poll, fd, ty, moods);
            let deleted = kqueue_delete(added.1, poll, fd, next);
            &&& added.0 == Ok::<(), Error>(())
            &&& deleted == (Ok::<(), Error>(()), queues)
            &&& kqueue_add(deleted.1, poll, fd, ty, moods) == added
        }),
{
    let filters = queues[poll.kq];
    let added = watching(filters, fd, ty);
    kqueue_add_watches_or_says_exists(queues, poll, fd, ty, moods);
    kqueue_delete_removes_or_says_doesnt_exist(
        queues.insert(poll.kq, added),
        poll,
        fd,
        next,
    );
    kqueue_watching_is_just_the_type(filters, fd, ty, read_filter(fd));
    assert(without(added, fd) =~= filters);
    assert(queues.insert(poll.kq, added).insert(poll.kq, filters) =~= queues);
}

/// `kqueue`: the last call of making a set has the kernel watch the read end of the abort pipe for
/// reading, in the queue that was just made and in no other.
pub proof fn kqueue_setup_watches_the_abort_pipe(
    queues: Queues,
    step: kqueue::NewWatch,
    moods: Moods,
)
    requires
        queues.contains_key(step.kq),
        granted(moods),
    ensures
        ({
            let (reply, after) = kevent_call(queues, step.call(), moods, 0);
            &&& step.after(reply.r) matches Ok(poll) && poll.kq == step.kq && poll.read_end
                == step.read_end && poll.write_end == step.write_end && poll.state.max == step.max
            &&& after == queues.insert(
                step.kq,
                queues[step.kq].insert(read_filter(step.read_end)),
            )
        }),
{
    lemma_watch(queues[step.kq], step.read_end, Type::Read, moods, 0);
    assert(moods(0).refused is None && moods(1).refused is None);
}

} // verus!

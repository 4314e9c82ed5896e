//! The poll set on top of Linux's `epoll`.
//!
//! A set is made in three steps ([`FDPoll::new`], [`NewQueue`], [`NewAbort`], [`NewWatch`]),
//! each of which makes one system call. Afterwards the user's side calls `wait`, `abort`,
//! `events`, `add`, `modify` and `delete`, and the worker goes round `acquire`, `start`,
//! `polled` and `drained`.
use crate::errno;
use crate::monitor::{report_poll_error, Events, Monitor, Notice, Phase, State, Wakeup};
use crate::types::{Error, Type};
use libc::{c_int, c_uint};
use vstd::prelude::*;

verus! {

/// Readiness for reading, as a bit of [`epoll_event::events`].
pub const EPOLLIN: u32 = 1;

/// Readiness for writing, as a bit of [`epoll_event::events`].
pub const EPOLLOUT: u32 = 4;

/// `epoll_ctl`: add a descriptor.
pub const EPOLL_CTL_ADD: c_int = 1;

/// `epoll_ctl`: remove a descriptor.
pub const EPOLL_CTL_DEL: c_int = 2;

/// `epoll_ctl`: change how a descriptor is watched.
pub const EPOLL_CTL_MOD: c_int = 3;

/// `eventfd`: reads of an empty counter return instead of blocking.
pub const EFD_NONBLOCK: c_int = 2048;

/// `epoll_wait`: wait without a time limit.
pub const FOREVER: c_int = -1;

/// How many bytes one read of the abort descriptor asks for.
pub const ABORT_LEN: usize = 8;

/// The word that the kernel keeps with a watched descriptor and hands back with its events.
///
/// Its lower half is the descriptor.
#[allow(non_camel_case_types)]
#[derive(Clone, Copy, Debug, PartialEq, Eq, Structural)]
pub struct epoll_data {
    pub data: u64,
}

impl epoll_data {
    /// The descriptor in this word.
    pub open spec fn spec_fd(self) -> c_int {
        self.data as c_int
    }

    /// The word for a descriptor.
    pub open spec fn of(fd: c_int) -> epoll_data {
        epoll_data { data: (fd as u32) as u64 }
    }

    /// This word with a descriptor put into its lower half.
    pub open spec fn with_fd(self, fd: c_int) -> epoll_data {
        epoll_data { data: (self.data & 0xffff_ffff_0000_0000) | ((fd as u32) as u64) }
    }

    /// Returns the descriptor in this word.
    pub fn fd(&self) -> (fd: c_int)
        ensures
            fd == self.spec_fd(),
    {
        #[verifier::truncate]
        (self.data as c_int)
    }

    /// Puts a descriptor into this word and leaves the upper half as it is.
    pub fn set_fd(&mut self, fd: c_int)
        ensures
            final(self).spec_fd() == fd,
            final(self).data >> 32 == old(self).data >> 32,
            old(self).data == 0 ==> *final(self) == epoll_data::of(fd),
            *final(self) == old(self).with_fd(fd),
    {
        let before: u64 = self.data;
        #[verifier::truncate]
        let half: u32 = fd as u32;
        let after: u64 = (before & 0xffff_ffff_0000_0000) | (half as u64);
        assert(after as i32 == fd) by (bit_vector)
            requires
                half == fd as u32,
                after == (before & 0xffff_ffff_0000_0000) | (half as u64),
        ;
        assert(after >> 32 == before >> 32) by (bit_vector)
            requires
                after == (before & 0xffff_ffff_0000_0000) | (half as u64),
        ;
        assert(before == 0 ==> after == half as u64) by (bit_vector)
            requires
                after == (before & 0xffff_ffff_0000_0000) | (half as u64),
        ;
        self.data = after;
    }
}

/// A single event, and also how a descriptor is to be watched.
#[allow(non_camel_case_types)]
#[derive(Clone, Copy, Debug, PartialEq, Eq, Structural)]
pub struct epoll_event {
    /// The kinds of readiness, one bit each.
    pub events: u32,
    /// The word kept with the descriptor.
    pub data: epoll_data,
}

/// A single event.
pub type Event = epoll_event;

impl epoll_event {
    /// The descriptor of this event.
    pub open spec fn spec_fd(self) -> c_int {
        self.data.spec_fd()
    }

    /// The descriptor is readable.
    pub open spec fn readable(self) -> bool {
        self.events & EPOLLIN != 0
    }

    /// The descriptor is writable.
    pub open spec fn writable(self) -> bool {
        self.events & EPOLLOUT != 0
    }

    /// Returns the file descriptor of this event.
    pub fn fd(&self) -> (fd: c_int)
        ensures
            fd == self.spec_fd(),
    {
        self.data.fd()
    }

    /// Returns if the file descriptor is readable.
    pub fn read(&self) -> (readable: bool)
        ensures
            readable == self.readable(),
    {
        self.events & EPOLLIN != 0
    }

    /// Returns if the file descriptor is writable.
    pub fn write(&self) -> (writable: bool)
        ensures
            writable == self.writable(),
    {
        self.events & EPOLLOUT != 0
    }
}

/// The kinds of readiness that a watch type asks for.
pub open spec fn interest(ty: Type) -> u32 {
    match ty {
        Type::Read => EPOLLIN,
        Type::Write => EPOLLOUT,
        Type::ReadWrite => EPOLLIN | EPOLLOUT,
    }
}

/// How the kernel is told to watch `fd`.
pub open spec fn watch(fd: c_int, ty: Type) -> Event {
    epoll_event { events: interest(ty), data: epoll_data::of(fd) }
}

/// Builds what tells the kernel to watch `fd`.
fn make_watch(fd: c_int, ty: Type) -> (event: Event)
    ensures
        event == watch(fd, ty),
{
    let mut data = epoll_data { data: 0 };
    data.set_fd(fd);
    let events: u32 = match ty {
        Type::Read => EPOLLIN,
        Type::Write => EPOLLOUT,
        Type::ReadWrite => EPOLLIN | EPOLLOUT,
    };
    epoll_event { events, data }
}

/// A call of `epoll_ctl`. Without an event, the kernel gets a null pointer.
#[derive(Clone, Copy, Debug, PartialEq, Eq)]
pub struct Ctl {
    pub epfd: c_int,
    pub op: c_int,
    pub fd: c_int,
    pub event: Option<Event>,
}

impl Ctl {
    /// The call that adds a descriptor.
    pub open spec fn adds(epfd: c_int, fd: c_int, ty: Type) -> Ctl {
        Ctl { epfd, op: EPOLL_CTL_ADD, fd, event: Some(watch(fd, ty)) }
    }

    /// The call that modifies a descriptor.
    pub open spec fn modifies(epfd: c_int, fd: c_int, ty: Type) -> Ctl {
        Ctl { epfd, op: EPOLL_CTL_MOD, fd, event: Some(watch(fd, ty)) }
    }

    /// The call that removes a descriptor.
    pub open spec fn deletes(epfd: c_int, fd: c_int) -> Ctl {
        Ctl { epfd, op: EPOLL_CTL_DEL, fd, event: None }
    }
}

/// A call of `epoll_wait`.
#[derive(Clone, Copy, Debug, PartialEq, Eq)]
pub struct WaitCall {
    pub epfd: c_int,
    pub maxevents: c_int,
    pub timeout: c_int,
}

/// A call of `eventfd`.
#[derive(Clone, Copy, Debug, PartialEq, Eq)]
pub struct EventfdCall {
    pub initval: c_uint,
    pub flags: c_int,
}

/// A call of `read` that asks for `len` bytes.
#[derive(Clone, Copy, Debug, PartialEq, Eq)]
pub struct ReadCall {
    pub fd: c_int,
    pub len: usize,
}

/// A call of `write` with the bytes of `value`, in the machine's order.
#[derive(Clone, Copy, Debug, PartialEq, Eq)]
pub struct WriteCall {
    pub fd: c_int,
    pub value: u64,
}

/// A set could not be made: the error, and the descriptors to close, in order.
#[derive(Debug, PartialEq, Eq)]
pub struct Failed {
    pub error: Error,
    pub close: Vec<c_int>,
}

impl View for Failed {
    type V = (Error, Seq<c_int>);

    open spec fn view(&self) -> (Error, Seq<c_int>) {
        (self.error, self.close@)
    }
}

/// First step of making a set: the `epoll` descriptor.
#[derive(Debug)]
pub struct NewQueue {
    pub max: usize,
}

/// Second step of making a set: the abort descriptor.
#[derive(Debug)]
pub struct NewAbort {
    pub max: usize,
    pub epfd: c_int,
}

/// Last step of making a set: watching the abort descriptor.
#[derive(Debug)]
pub struct NewWatch {
    pub max: usize,
    pub epfd: c_int,
    pub abort: c_int,
}

impl NewQueue {
    /// How making a set begins.
    pub open spec fn first(max: usize) -> NewQueue {
        NewQueue { max }
    }

    /// What follows a reply of `epoll_create1`.
    pub open spec fn after(self, r: c_int) -> Result<NewAbort, (Error, Seq<c_int>)> {
        if r == -1 {
            Err((Error::Resources, Seq::empty()))
        } else {
            Ok(NewAbort { max: self.max, epfd: r })
        }
    }

    /// The flags of the call that is made.
    pub open spec fn call(self) -> c_int {
        0
    }

    /// The flags to call `epoll_create1` with.
    pub fn request(&self) -> (flags: c_int)
        ensures
            flags == 0,
            flags == self.call(),
    {
        0
    }

    /// `epoll_create1` has returned `r`.
    pub fn created(self, r: c_int) -> (result: Result<NewAbort, Failed>)
        ensures
            match result {
                Ok(next) => self.after(r) == Ok::<NewAbort, (Error, Seq<c_int>)>(next),
                Err(failed) => self.after(r) == Err::<NewAbort, (Error, Seq<c_int>)>(failed@),
            },
    {
        if r == -1 {
            return Err(Failed { error: Error::Resources, close: Vec::new() });
        }
        Ok(NewAbort { max: self.max, epfd: r })
    }
}

impl NewAbort {
    /// What follows a reply of `eventfd`.
    pub open spec fn after(self, r: c_int) -> Result<NewWatch, (Error, Seq<c_int>)> {
        if r == -1 {
            Err((Error::Resources, seq![self.epfd]))
        } else {
            Ok(NewWatch { max: self.max, epfd: self.epfd, abort: r })
        }
    }

    /// The call that is made.
    pub open spec fn call(self) -> EventfdCall {
        EventfdCall { initval: 0, flags: EFD_NONBLOCK }
    }

    /// The call of `eventfd` to make.
    pub fn request(&self) -> (call: EventfdCall)
        ensures
            call == (EventfdCall { initval: 0, flags: EFD_NONBLOCK }),
            call == self.call(),
    {
        EventfdCall { initval: 0, flags: EFD_NONBLOCK }
    }

    /// `eventfd` has returned `r`.
    pub fn opened(self, r: c_int) -> (result: Result<NewWatch, Failed>)
        ensures
            match result {
                Ok(next) => self.after(r) == Ok::<NewWatch, (Error, Seq<c_int>)>(next),
                Err(failed) => self.after(r) == Err::<NewWatch, (Error, Seq<c_int>)>(failed@),
            },
    {
        if r == -1 {
            let close = vec![self.epfd];
            assert(close@ =~= seq![self.epfd]);
            return Err(Failed { error: Error::Resources, close });
        }
        Ok(NewWatch { max: self.max, epfd: self.epfd, abort: r })
    }
}

impl NewWatch {
    /// What follows a reply of `epoll_ctl`.
    pub open spec fn after(self, r: c_int) -> Result<Model, (Error, Seq<c_int>)> {
        if r == -1 {
            Err((Error::Resources, seq![self.abort, self.epfd]))
        } else {
            Ok(
                Model {
                    epfd: self.epfd,
                    abort: self.abort,
                    state: State::initial(self.max as nat),
                },
            )
        }
    }

    /// The call that is made.
    pub open spec fn call(self) -> Ctl {
        Ctl::adds(self.epfd, self.abort, Type::Read)
    }

    /// The call of `epoll_ctl` to make.
    pub fn request(&self) -> (call: Ctl)
        ensures
            call == Ctl::adds(self.epfd, self.abort, Type::Read),
            call == self.call(),
    {
        Ctl {
            epfd: self.epfd,
            op: EPOLL_CTL_ADD,
            fd: self.abort,
            event: Some(make_watch(self.abort, Type::Read)),
        }
    }

    /// `epoll_ctl` has returned `r`.
    pub fn registered(self, r: c_int) -> (result: Result<FDPoll, Failed>)
        ensures
            match result {
                Ok(set) => set.wf() && self.after(r) == Ok::<Model, (Error, Seq<c_int>)>(set@),
                Err(failed) => self.after(r) == Err::<Model, (Error, Seq<c_int>)>(failed@),
            },
    {
        if r == -1 {
            return Err(Failed { error: Error::Resources, close: vec![self.abort, self.epfd] });
        }
        Ok(FDPoll { epfd: self.epfd, abort: self.abort, monitor: Monitor::new(self.max) })
    }
}

/// What the worker does once the kernel has answered.
#[derive(Clone, Copy, Debug, PartialEq, Eq)]
pub enum Polled {
    /// The round is over: send the message.
    Notify(Notice),
    /// Read the abort descriptor.
    Drain(ReadCall),
}

/// How a reply of `epoll_ctl` to an addition is reported.
pub open spec fn add_outcome(r: c_int, err: c_int) -> Result<(), Error> {
    if r != -1 {
        Ok(())
    } else if err == errno::bad_descriptor() {
        Err(Error::BadFD)
    } else if err == errno::already_exists() {
        Err(Error::Exists)
    } else if err == errno::not_permitted() {
        Err(Error::Unsupported)
    } else {
        Err(Error::Resources)
    }
}

/// How a reply of `epoll_ctl` to a modification or a removal is reported.
pub open spec fn change_outcome(r: c_int, err: c_int) -> Result<(), Error> {
    if r != -1 {
        Ok(())
    } else if err == errno::bad_descriptor() {
        Err(Error::BadFD)
    } else if err == errno::no_entry() {
        Err(Error::DoesntExist)
    } else {
        Err(Error::Resources)
    }
}

/// Mathematical model of an [`FDPoll`].
#[verifier::ext_equal]
pub struct Model {
    /// The `epoll` descriptor.
    pub epfd: c_int,
    /// The abort descriptor.
    pub abort: c_int,
    /// What is shared with the worker.
    pub state: State<Event>,
}

impl Model {
    /// What `add` hands out.
    pub open spec fn add_request(self, fd: c_int, ty: Type) -> Result<Ctl, Error> {
        if self.state.running() {
            Err(Error::Waiting)
        } else {
            Ok(Ctl::adds(self.epfd, fd, ty))
        }
    }

    /// What `modify` hands out.
    pub open spec fn modify_request(self, fd: c_int, ty: Type) -> Result<Ctl, Error> {
        if self.state.running() {
            Err(Error::Waiting)
        } else {
            Ok(Ctl::modifies(self.epfd, fd, ty))
        }
    }

    /// What `delete` hands out.
    pub open spec fn delete_request(self, fd: c_int) -> Result<Ctl, Error> {
        if self.state.running() {
            Err(Error::Waiting)
        } else {
            Ok(Ctl::deletes(self.epfd, fd))
        }
    }

    /// What `abort` hands out.
    pub open spec fn abort_request(self) -> Result<WriteCall, ()> {
        if self.state.running() {
            Ok(WriteCall { fd: self.abort, value: 1 })
        } else {
            Err(())
        }
    }

    /// What `start` hands out.
    pub open spec fn wait_request(self) -> Option<WaitCall> {
        if self.state.readers > 0 {
            None
        } else {
            Some(
                WaitCall {
                    epfd: self.epfd,
                    maxevents: self.state.max as c_int,
                    timeout: FOREVER,
                },
            )
        }
    }

    /// What `polled` hands out.
    pub open spec fn polled_request(self, r: c_int, err: c_int) -> Polled {
        if r == -1 {
            Polled::Notify(Err(crate::monitor::poll_error(err)))
        } else {
            Polled::Drain(ReadCall { fd: self.abort, len: ABORT_LEN })
        }
    }

    /// What `shut_down` closes.
    pub open spec fn closing(self) -> Seq<c_int> {
        seq![self.epfd, self.abort]
    }
}

/// Poll set.
#[derive(Debug)]
pub struct FDPoll {
    epfd: c_int,
    abort: c_int,
    monitor: Monitor<Event>,
}

impl View for FDPoll {
    type V = Model;

    closed spec fn view(&self) -> Model {
        Model { epfd: self.epfd, abort: self.abort, state: self.monitor@ }
    }
}

impl FDPoll {
    /// What holds of every set.
    pub open spec fn wf(&self) -> bool {
        self@.state.wf()
    }

    /// Create a new set that can handle at most `max` events at the same time.
    ///
    /// Note that you can add arbitrarily many file descriptors to the set (as far as the
    /// operating system allows), but every `wait()` stores at most `max` events.
    ///
    /// The steps that follow end in a set, or in [`Failed`] if the underlying structure
    /// couldn't be created.
    pub fn new(max: usize) -> (first: NewQueue)
        ensures
            first == (NewQueue { max }),
            first == NewQueue::first(max),
    {
        NewQueue { max }
    }

    /// Whether a wait is running.
    pub fn running(&self) -> (running: bool)
        ensures
            running == self@.state.running(),
    {
        self.monitor.running()
    }

    /// Whether the worker has the stored events to itself.
    pub fn locked(&self) -> (locked: bool)
        ensures
            locked == self@.state.locked(),
    {
        self.monitor.locked()
    }

    /// Where the worker is.
    pub fn phase(&self) -> (phase: Phase)
        ensures
            phase == self@.state.phase,
    {
        self.monitor.phase()
    }

    /// How many waits the worker has not begun yet.
    pub fn permits(&self) -> (permits: u64)
        ensures
            permits == self@.state.permits,
    {
        self.monitor.permits()
    }

    /// How many [`Events`] are in use.
    pub fn readers(&self) -> (readers: u64)
        ensures
            readers == self@.state.readers,
    {
        self.monitor.readers()
    }

    /// How many events one wait stores at most.
    pub fn max(&self) -> (max: usize)
        ensures
            max == self@.state.max,
    {
        self.monitor.max()
    }

    /// Abort the current `wait()`: write to the abort descriptor.
    ///
    /// Returns `Err` if `wait()` isn't running. If a wait has been accepted while the worker
    /// still looks into the abort descriptor for the one before, the caller holds back until it is
    /// done, so that the write reaches the right wait.
    pub fn abort(&self) -> (result: Result<WriteCall, ()>)
        requires
            !self@.state.running() || !self@.state.draining(),
        ensures
            result == (if self@.state.running() {
                Ok::<WriteCall, ()>(WriteCall { fd: self@.abort, value: 1 })
            } else {
                Err::<WriteCall, ()>(())
            }),
            result == self@.abort_request(),
    {
        if !self.running() {
            return Err(());
        }
        Ok(WriteCall { fd: self.abort, value: 1 })
    }

    /// Return the container containing the events generated by the last `wait()`.
    ///
    /// Returns `Err` if `wait()` is currently running. While the worker stores the events of
    /// a wait that has just ended, the caller holds back until [`FDPoll::locked`] is false.
    pub fn events(&mut self) -> (result: Result<Events<Event>, ()>)
        requires
            old(self).wf(),
            old(self)@.state.running() || !old(self)@.state.locked(),
            old(self)@.state.readers < u64::MAX,
        ensures
            final(self).wf(),
            final(self)@ == (Model { state: old(self)@.state.read(), ..old(self)@ }),
            result is Err <==> old(self)@.state.running(),
            result matches Ok(events) ==> events@ == old(self)@.state.events,
            match result {
                Ok(events) => old(self)@.state.events_answer() == Ok::<Seq<Event>, ()>(events@),
                Err(_) => old(self)@.state.events_answer() == Err::<Seq<Event>, ()>(()),
            },
    {
        self.monitor.events()
    }

    /// Hand back a container that is no longer in use.
    pub fn release(&mut self, events: Events<Event>)
        requires
            old(self).wf(),
            old(self)@.state.readers > 0,
        ensures
            final(self).wf(),
            final(self)@ == (Model { state: old(self)@.state.released(), ..old(self)@ }),
    {
        self.monitor.release(events)
    }

    /// Start the wait process.
    ///
    /// Returns `Err` if `wait()` is currently running.
    pub fn wait(&mut self) -> (result: Result<(), ()>)
        requires
            old(self).wf(),
        ensures
            final(self).wf(),
            final(self)@ == (Model { state: old(self)@.state.waited(), ..old(self)@ }),
            result == (if old(self)@.state.running() {
                Err::<(), ()>(())
            } else {
                Ok::<(), ()>(())
            }),
            result == old(self)@.state.wait_answer(),
    {
        self.monitor.wait()
    }

    /// Add a file descriptor to the set: the call of `epoll_ctl` to make, whose reply goes to
    /// [`FDPoll::added`].
    ///
    /// Returns `Err` if `wait()` is currently running.
    pub fn add(&self, fd: c_int, ty: Type) -> (result: Result<Ctl, Error>)
        ensures
            result == (if self@.state.running() {
                Err::<Ctl, Error>(Error::Waiting)
            } else {
                Ok::<Ctl, Error>(Ctl::adds(self@.epfd, fd, ty))
            }),
            result == self@.add_request(fd, ty),
    {
        if self.running() {
            return Err(Error::Waiting);
        }
        Ok(Ctl { epfd: self.epfd, op: EPOLL_CTL_ADD, fd, event: Some(make_watch(fd, ty)) })
    }

    /// The end of [`FDPoll::add`]: `epoll_ctl` has returned `r` and left the error number `err`.
    ///
    /// Returns `Err` if an underlying error occurred.
    pub fn added(r: c_int, err: c_int) -> (result: Result<(), Error>)
        ensures
            result == add_outcome(r, err),
    {
        if r != -1 {
            Ok(())
        } else if err == errno::ebadf() {
            Err(Error::BadFD)
        } else if err == errno::eexist() {
            Err(Error::Exists)
        } else if err == errno::eperm() {
            Err(Error::Unsupported)
        } else {
            Err(Error::Resources)
        }
    }

    /// Modify a file descriptor in the set: the call of `epoll_ctl` to make, whose reply goes
    /// to [`FDPoll::changed`].
    ///
    /// Returns `Err` if `wait()` is currently running.
    pub fn modify(&self, fd: c_int, ty: Type) -> (result: Result<Ctl, Error>)
        ensures
            result == (if self@.state.running() {
                Err::<Ctl, Error>(Error::Waiting)
            } else {
                Ok::<Ctl, Error>(Ctl::modifies(self@.epfd, fd, ty))
            }),
            result == self@.modify_request(fd, ty),
    {
        if self.running() {
            return Err(Error::Waiting);
        }
        Ok(Ctl { epfd: self.epfd, op: EPOLL_CTL_MOD, fd, event: Some(make_watch(fd, ty)) })
    }

    /// Remove a file descriptor from the set: the call of `epoll_ctl` to make, whose reply
    /// goes to [`FDPoll::changed`].
    ///
    /// Returns `Err` if `wait()` is currently running.
    pub fn delete(&self, fd: c_int) -> (result: Result<Ctl, Error>)
        ensures
            result == (if self@.state.running() {
                Err::<Ctl, Error>(Error::Waiting)
            } else {
                Ok::<Ctl, Error>(Ctl::deletes(self@.epfd, fd))
            }),
            result == self@.delete_request(fd),
    {
        if self.running() {
            return Err(Error::Waiting);
        }
        Ok(Ctl { epfd: self.epfd, op: EPOLL_CTL_DEL, fd, event: None })
    }

    /// The end of [`FDPoll::modify`] and of [`FDPoll::delete`]: `epoll_ctl` has returned `r`
    /// and left the error number `err`.
    ///
    /// Returns `Err` if an underlying error occurred.
    pub fn changed(r: c_int, err: c_int) -> (result: Result<(), Error>)
        ensures
            result == change_outcome(r, err),
    {
        if r != -1 {
            Ok(())
        } else if err == errno::ebadf() {
            Err(Error::BadFD)
        } else if err == errno::enoent() {
            Err(Error::DoesntExist)
        } else {
            Err(Error::Resources)
        }
    }

    /// The user's side is dropped: the worker is told to leave.
    ///
    /// Returns the descriptors to close, in order.
    pub fn shut_down(&mut self) -> (close: Vec<c_int>)
        requires
            old(self).wf(),
            old(self)@.state.permits < u64::MAX,
        ensures
            final(self).wf(),
            final(self)@ == (Model { state: old(self)@.state.stopped(), ..old(self)@ }),
            close@ == seq![old(self)@.epfd, old(self)@.abort],
            close@ == old(self)@.closing(),
    {
        self.monitor.stop();
        vec![self.epfd, self.abort]
    }

    /// The worker takes a permit, if there is one.
    pub fn acquire(&mut self) -> (wakeup: Wakeup)
        requires
            old(self).wf(),
            old(self)@.state.phase is Parked,
        ensures
            final(self).wf(),
            final(self)@ == (Model { state: old(self)@.state.acquired(), ..old(self)@ }),
            wakeup == old(self)@.state.wakeup(),
    {
        self.monitor.acquire()
    }

    /// The worker begins to wait: the stored events are forgotten, and the call of
    /// `epoll_wait` follows, whose reply goes to [`FDPoll::polled`].
    ///
    /// Returns `None`, with nothing changed, while the stored events are being read.
    pub fn start(&mut self) -> (call: Option<WaitCall>)
        requires
            old(self).wf(),
            old(self)@.state.phase is Starting,
        ensures
            final(self).wf(),
            final(self)@ == (Model { state: old(self)@.state.started(), ..old(self)@ }),
            call == (if old(self)@.state.readers > 0 {
                None::<WaitCall>
            } else {
                Some(
                    WaitCall {
                        epfd: old(self)@.epfd,
                        maxevents: old(self)@.state.max as c_int,
                        timeout: FOREVER,
                    },
                )
            }),
            call == old(self)@.wait_request(),
    {
        if !self.monitor.start() {
            return None;
        }
        let max: usize = self.monitor.max();
        #[verifier::truncate]
        let maxevents: c_int = max as c_int;
        Some(WaitCall { epfd: self.epfd, maxevents, timeout: FOREVER })
    }

    /// `epoll_wait` has returned `r`: -1 if it failed with the error number `err`, and
    /// otherwise the number of events at the front of `buf`, which are stored.
    pub fn polled(&mut self, r: c_int, err: c_int, buf: Vec<Event>) -> (next: Polled)
        requires
            old(self).wf(),
            old(self)@.state.phase is Polling,
            -1 <= r,
            r <= buf@.len(),
            r <= old(self)@.state.max,
        ensures
            final(self).wf(),
            final(self)@ == (Model {
                state: old(self)@.state.polled(r as int, buf@),
                ..old(self)@
            }),
            next == (if r == -1 {
                Polled::Notify(Err(crate::monitor::poll_error(err)))
            } else {
                Polled::Drain(ReadCall { fd: old(self)@.abort, len: ABORT_LEN })
            }),
            next == old(self)@.polled_request(r, err),
    {
        if self.monitor.polled(r, buf) {
            Polled::Drain(ReadCall { fd: self.abort, len: ABORT_LEN })
        } else {
            Polled::Notify(Err(report_poll_error(err)))
        }
    }

    /// The read of the abort descriptor has returned `n`: the round is over.
    ///
    /// Returns the message to send. There is none if the descriptor held something, for then
    /// the wait was aborted.
    pub fn drained(&mut self, n: isize) -> (notice: Option<Notice>)
        requires
            old(self).wf(),
            old(self)@.state.phase is Draining,
        ensures
            final(self).wf(),
            final(self)@ == (Model { state: old(self)@.state.drained_once(), ..old(self)@ }),
            notice == old(self)@.state.drain_notice(n as int),
    {
        self.monitor.finish();
        if n <= 0 {
            Some(Ok(()))
        } else {
            None
        }
    }
}

} // verus!

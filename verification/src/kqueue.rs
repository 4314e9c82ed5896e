//! The poll set on top of `kqueue`, as on macOS, iOS and FreeBSD.
//!
//! A set is made in three steps ([`FDPoll::new`], [`NewQueue`], [`NewAbort`], [`NewWatch`]),
//! each of which makes one system call. Afterwards the user's side calls `wait`, `abort`,
//! `events`, `add`, `modify` and `delete`, and the worker goes round `acquire`, `start`,
//! `polled` and `drained`.
//!
//! The queue knows a descriptor by up to two filters, one for reading and one for writing; the
//! descriptor is in the set if it has either. `add`, `modify` and `delete` go through them one
//! by one, with one system call each.
//! A wait is aborted through a pipe, whose read end the worker watches and empties.
use crate::errno;
use crate::monitor::{report_poll_error, Events, Monitor, Notice, Phase, State, Wakeup};
use crate::types::{Error, Type};
use libc::{c_int, c_short, c_uint};
use vstd::prelude::*;

verus! {

/// The filter for readiness for reading.
pub const EVFILT_READ: c_short = -1;

/// The filter for readiness for writing.
pub const EVFILT_WRITE: c_short = -2;

/// Add a filter.
pub const EV_ADD: c_short = 1;

/// Remove a filter.
pub const EV_DELETE: c_short = 2;

/// Enable a filter. A filter that was never disabled stays as it is, and one that a descriptor
/// doesn't have is reported as missing, so this tells whether it is there.
pub const EV_ENABLE: c_short = 4;

/// How many bytes one read of the abort pipe asks for.
pub const ABORT_LEN: usize = 8;

/// The systems on which a queue can be used, by how they number the flags of `pipe2`.
#[derive(Clone, Copy, Debug, PartialEq, Eq, Structural)]
pub enum Os {
    /// Linux and Android, with a `kqueue` library.
    Linux,
    /// macOS, iOS and FreeBSD.
    Bsd,
}

impl Os {
    /// The flag that makes reads and writes return instead of blocking.
    pub open spec fn nonblock(self) -> c_int {
        match self {
            Os::Linux => 0o4000,
            Os::Bsd => 4,
        }
    }

    /// Returns the flag that makes reads and writes return instead of blocking.
    pub fn o_nonblock(self) -> (flag: c_int)
        ensures
            flag == self.nonblock(),
    {
        match self {
            Os::Linux => 0o4000,
            Os::Bsd => 4,
        }
    }
}

/// A single event, and also a change of the queue.
#[allow(non_camel_case_types)]
#[derive(Clone, Copy, Debug, PartialEq, Eq, Structural)]
pub struct kevent {
    /// Identifier for this event.
    pub ident: usize,
    /// Filter for event.
    pub filter: c_short,
    /// Action flags for kqueue.
    pub flags: c_short,
    /// Filter flag value.
    pub fflags: c_uint,
    /// Filter data value.
    pub data: isize,
    /// Opaque user data identifier.
    pub udata: usize,
}

/// A single event.
pub type Event = kevent;

impl kevent {
    /// The descriptor of this event.
    pub open spec fn spec_fd(self) -> c_int {
        self.ident as c_int
    }

    /// The descriptor is readable.
    pub open spec fn readable(self) -> bool {
        self.filter == EVFILT_READ
    }

    /// The descriptor is writable.
    pub open spec fn writable(self) -> bool {
        self.filter == EVFILT_WRITE
    }

    /// Returns the file descriptor of this event.
    pub fn fd(&self) -> (fd: c_int)
        ensures
            fd == self.spec_fd(),
    {
        #[verifier::truncate]
        (self.ident as c_int)
    }

    /// Returns if the file descriptor is readable.
    pub fn read(&self) -> (readable: bool)
        ensures
            readable == self.readable(),
    {
        self.filter == EVFILT_READ
    }

    /// Returns if the file descriptor is writable.
    pub fn write(&self) -> (writable: bool)
        ensures
            writable == self.writable(),
    {
        self.filter == EVFILT_WRITE
    }
}

/// The change that does `flags` to one filter of `fd`.
pub open spec fn change(fd: c_int, filter: c_short, flags: c_short) -> Event {
    kevent { ident: fd as usize, filter, flags, fflags: 0, data: 0, udata: 0 }
}

/// The changes that make the queue watch `fd`.
pub open spec fn watch(fd: c_int, ty: Type) -> Seq<Event> {
    match ty {
        Type::Read => seq![change(fd, EVFILT_READ, EV_ADD)],
        Type::Write => seq![change(fd, EVFILT_WRITE, EV_ADD)],
        Type::ReadWrite => seq![
            change(fd, EVFILT_READ, EV_ADD),
            change(fd, EVFILT_WRITE, EV_ADD),
        ],
    }
}

/// Builds the change that does `flags` to one filter of `fd`.
fn make_change(fd: c_int, filter: c_short, flags: c_short) -> (event: Event)
    ensures
        event == change(fd, filter, flags),
{
    #[verifier::truncate]
    let ident: usize = fd as usize;
    kevent { ident, filter, flags, fflags: 0, data: 0, udata: 0 }
}

/// Builds the changes that make the queue watch `fd`.
fn make_watch(fd: c_int, ty: Type) -> (changes: Vec<Event>)
    ensures
        changes@ == watch(fd, ty),
{
    let read = make_change(fd, EVFILT_READ, EV_ADD);
    let write = make_change(fd, EVFILT_WRITE, EV_ADD);
    match ty {
        Type::Read => vec![read],
        Type::Write => vec![write],
        Type::ReadWrite => vec![read, write],
    }
}

/// A call of `kevent`, without a time limit: the changes to make, and how many events to wait
/// for. For none, the kernel gets a null pointer and returns at once.
#[derive(Debug, PartialEq, Eq)]
pub struct Call {
    pub kq: c_int,
    pub changes: Vec<Event>,
    pub nevents: c_int,
}

/// What a [`Call`] asks of the kernel.
#[verifier::ext_equal]
pub struct Request {
    pub kq: c_int,
    pub changes: Seq<Event>,
    pub nevents: c_int,
}

impl View for Call {
    type V = Request;

    open spec fn view(&self) -> Request {
        Request { kq: self.kq, changes: self.changes@, nevents: self.nevents }
    }
}

impl Call {
    /// This call only makes `changes` to the queue `kq`.
    pub open spec fn makes(self, kq: c_int, changes: Seq<Event>) -> bool {
        &&& self.kq == kq
        &&& self.changes@ =~= changes
        &&& self.nevents == 0
    }

    /// This call only waits for at most `nevents` events of the queue `kq`.
    pub open spec fn awaits(self, kq: c_int, nevents: c_int) -> bool {
        &&& self.kq == kq
        &&& self.changes@ =~= Seq::<Event>::empty()
        &&& self.nevents == nevents
    }
}

/// A call of `read` that asks for `len` bytes.
#[derive(Clone, Copy, Debug, PartialEq, Eq)]
pub struct ReadCall {
    pub fd: c_int,
    pub len: usize,
}

/// A call of `write` with one byte.
#[derive(Clone, Copy, Debug, PartialEq, Eq)]
pub struct WriteCall {
    pub fd: c_int,
    pub byte: u8,
}

/// A set could not be made: the error, and the descriptors to close, in order.
#[derive(Debug, PartialEq, Eq)]
pub struct Failed {
    pub error: Error,
    pub close: Vec<c_int>,
}

impl View for Failed {
    type V = (Error, Seq<c_int>);

    open spec fn view(&self) -> (Error, Seq<c_int>) {
        (self.error, self.close@)
    }
}

/// First step of making a set: the queue.
#[derive(Debug)]
pub struct NewQueue {
    pub max: usize,
}

/// Second step of making a set: the abort pipe.
#[derive(Debug)]
pub struct NewAbort {
    pub max: usize,
    pub kq: c_int,
}

/// Last step of making a set: watching the abort pipe.
#[derive(Debug)]
pub struct NewWatch {
    pub max: usize,
    pub kq: c_int,
    pub read_end: c_int,
    pub write_end: c_int,
}

impl NewQueue {
    /// How making a set begins.
    pub open spec fn first(max: usize) -> NewQueue {
        NewQueue { max }
    }

    /// What follows a reply of `kqueue`.
    pub open spec fn after(self, r: c_int) -> Result<NewAbort, (Error, Seq<c_int>)> {
        if r == -1 {
            Err((Error::Resources, Seq::empty()))
        } else {
            Ok(NewAbort { max: self.max, kq: r })
        }
    }

    /// `kqueue` has been called, and has returned `r`.
    pub fn created(self, r: c_int) -> (result: Result<NewAbort, Failed>)
        ensures
            match result {
                Ok(next) => self.after(r) == Ok::<NewAbort, (Error, Seq<c_int>)>(next),
                Err(failed) => self.after(r) == Err::<NewAbort, (Error, Seq<c_int>)>(failed@),
            },
    {
        if r == -1 {
            return Err(Failed { error: Error::Resources, close: Vec::new() });
        }
        Ok(NewAbort { max: self.max, kq: r })
    }
}

impl NewAbort {
    /// What follows a reply of `pipe2`.
    pub open spec fn after(self, r: c_int, read_end: c_int, write_end: c_int) -> Result<
        NewWatch,
        (Error, Seq<c_int>),
    > {
        if r == -1 {
            Err((Error::Resources, seq![self.kq]))
        } else {
            Ok(NewWatch { max: self.max, kq: self.kq, read_end, write_end })
        }
    }

    /// The flags to call `pipe2` with.
    pub fn request(&self, os: Os) -> (flags: c_int)
        ensures
            flags == os.nonblock(),
    {
        os.o_nonblock()
    }

    /// `pipe2` has returned `r`, and the descriptors of the pipe if `r` is not -1.
    pub fn opened(self, r: c_int, read_end: c_int, write_end: c_int) -> (result: Result<
        NewWatch,
        Failed,
    >)
        ensures
            match result {
                Ok(next) => self.after(r, read_end, write_end) == Ok::<
                    NewWatch,
                    (Error, Seq<c_int>),
                >(next),
                Err(failed) => self.after(r, read_end, write_end) == Err::<
                    NewWatch,
                    (Error, Seq<c_int>),
                >(failed@),
            },
    {
        if r == -1 {
            let close = vec![self.kq];
            assert(close@ =~= seq![self.kq]);
            return Err(Failed { error: Error::Resources, close });
        }
        Ok(NewWatch { max: self.max, kq: self.kq, read_end, write_end })
    }
}

impl NewWatch {
    /// What follows a reply of `kevent`.
    pub open spec fn after(self, r: c_int) -> Result<Model, (Error, Seq<c_int>)> {
        if r == -1 {
            Err((Error::Resources, seq![self.write_end, self.read_end, self.kq]))
        } else {
            Ok(
                Model {
                    kq: self.kq,
                    read_end: self.read_end,
                    write_end: self.write_end,
                    state: State::initial(self.max as nat),
                },
            )
        }
    }

    /// The call that is made.
    pub open spec fn call(self) -> Request {
        Request { kq: self.kq, changes: watch(self.read_end, Type::Read), nevents: 0 }
    }

    /// The call of `kevent` to make.
    pub fn request(&self) -> (call: Call)
        ensures
            call.makes(self.kq, watch(self.read_end, Type::Read)),
            call@ == self.call(),
    {
        Call { kq: self.kq, changes: make_watch(self.read_end, Type::Read), nevents: 0 }
    }

    /// `kevent` has returned `r`.
    pub fn registered(self, r: c_int) -> (result: Result<FDPoll, Failed>)
        ensures
            match result {
                Ok(set) => set.wf() && self.after(r) == Ok::<Model, (Error, Seq<c_int>)>(set@),
                Err(failed) => self.after(r) == Err::<Model, (Error, Seq<c_int>)>(failed@),
            },
    {
        if r == -1 {
            return Err(
                Failed {
                    error: Error::Resources,
                    close: vec![self.write_end, self.read_end, self.kq],
                },
            );
        }
        Ok(
            FDPoll {
                kq: self.kq,
                read_end: self.read_end,
                write_end: self.write_end,
                monitor: Monitor::new(self.max),
            },
        )
    }
}

/// What the worker does once the kernel has answered.
#[derive(Clone, Copy, Debug, PartialEq, Eq)]
pub enum Polled {
    /// The round is over: send the message.
    Notify(Notice),
    /// Read the abort pipe.
    Drain(ReadCall),
}

/// What the worker does once it has read the abort pipe.
#[derive(Clone, Copy, Debug, PartialEq, Eq)]
pub enum Drained {
    /// The round is over: send the message.
    Notify(Notice),
    /// The pipe may hold more: read it again.
    Again(ReadCall),
    /// The round is over, and was aborted: send nothing.
    Silent,
}

/// What a reply of `kevent` to the search for a filter means: an error, or whether the filter is
/// there.
pub open spec fn search_outcome(r: c_int, err: c_int) -> Result<bool, Error> {
    if r != -1 {
        Ok(true)
    } else if err == errno::no_entry() {
        Ok(false)
    } else {
        Err(add_error(err))
    }
}

/// How the error number of a failed `kevent` is reported by `add` and `modify`.
pub open spec fn add_error(err: c_int) -> Error {
    if err == errno::bad_descriptor() {
        Error::BadFD
    } else if err == errno::access_denied() {
        Error::NoPermission
    } else {
        Error::Resources
    }
}

/// How a reply of `kevent` to an addition is reported.
pub open spec fn add_outcome(r: c_int, err: c_int) -> Result<(), Error> {
    if r != -1 {
        Ok(())
    } else {
        Err(add_error(err))
    }
}

/// How a reply of `kevent` to the removal of a filter that a modified descriptor is to lose is
/// reported. It may never have had it.
pub open spec fn rest_outcome(r: c_int, err: c_int) -> Result<(), Error> {
    if r != -1 || err == errno::no_entry() {
        Ok(())
    } else {
        Err(add_error(err))
    }
}

/// What a reply of `kevent` to the removal of the read filter means: an error, or whether the
/// filter was missing.
pub open spec fn read_filter_outcome(r: c_int, err: c_int) -> Result<bool, Error> {
    if r != -1 {
        Ok(false)
    } else if err == errno::bad_descriptor() {
        Err(Error::BadFD)
    } else if err == errno::no_entry() {
        Ok(true)
    } else {
        Err(Error::Resources)
    }
}

/// How a reply of `kevent` to the removal of the write filter is reported.
pub open spec fn write_filter_outcome(not_found: bool, r: c_int, err: c_int) -> Result<(), Error> {
    if r != -1 {
        Ok(())
    } else if err == errno::bad_descriptor() {
        Err(Error::BadFD)
    } else if err != errno::no_entry() {
        Err(Error::Resources)
    } else if not_found {
        Err(Error::DoesntExist)
    } else {
        Ok(())
    }
}

/// Decides how the error number of a failed `kevent` is reported by `add` and `modify`.
fn report_add_error(err: c_int) -> (error: Error)
    ensures
        error == add_error(err),
{
    if err == errno::ebadf() {
        Error::BadFD
    } else if err == errno::eacces() {
        Error::NoPermission
    } else {
        Error::Resources
    }
}

/// Decides what a reply to the search for a filter means.
fn search(r: c_int, err: c_int) -> (result: Result<bool, Error>)
    ensures
        result == search_outcome(r, err),
{
    if r != -1 {
        Ok(true)
    } else if err == errno::enoent() {
        Ok(false)
    } else {
        Err(report_add_error(err))
    }
}

/// Decides how a reply to the addition of filters is reported.
fn add_result(r: c_int, err: c_int) -> (result: Result<(), Error>)
    ensures
        result == add_outcome(r, err),
{
    if r != -1 {
        Ok(())
    } else {
        Err(report_add_error(err))
    }
}

/// Builds the call that makes one change.
fn make_call(kq: c_int, fd: c_int, filter: c_short, flags: c_short) -> (call: Call)
    ensures
        call.makes(kq, seq![change(fd, filter, flags)]),
        call@ == (Request { kq, changes: seq![change(fd, filter, flags)], nevents: 0 }),
{
    Call { kq, changes: vec![make_change(fd, filter, flags)], nevents: 0 }
}

/// First step of adding a descriptor: looking for a read filter.
#[derive(Debug, PartialEq, Eq)]
pub struct AddRead {
    pub kq: c_int,
    pub fd: c_int,
    pub ty: Type,
}

/// Second step of adding a descriptor: looking for a write filter.
#[derive(Debug, PartialEq, Eq)]
pub struct AddWrite {
    pub kq: c_int,
    pub fd: c_int,
    pub ty: Type,
}

/// Last step of adding a descriptor: its filters.
#[derive(Debug, PartialEq, Eq)]
pub struct AddWatch {
    pub kq: c_int,
    pub fd: c_int,
    pub ty: Type,
}

impl AddRead {
    /// What follows a reply of `kevent`.
    pub open spec fn after(self, r: c_int, err: c_int) -> Result<AddWrite, Error> {
        match search_outcome(r, err) {
            Ok(true) => Err(Error::Exists),
            Ok(false) => Ok(AddWrite { kq: self.kq, fd: self.fd, ty: self.ty }),
            Err(error) => Err(error),
        }
    }

    /// The call that is made.
    pub open spec fn call(self) -> Request {
        Request { kq: self.kq, changes: seq![change(self.fd, EVFILT_READ, EV_ENABLE)], nevents: 0 }
    }

    /// The call of `kevent` to make.
    pub fn request(&self) -> (call: Call)
        ensures
            call.makes(self.kq, seq![change(self.fd, EVFILT_READ, EV_ENABLE)]),
            call@ == self.call(),
    {
        make_call(self.kq, self.fd, EVFILT_READ, EV_ENABLE)
    }

    /// `kevent` has returned `r` and left the error number `err`.
    ///
    /// Returns `Err` if the descriptor is in the set or if an underlying error occurred.
    pub fn searched(self, r: c_int, err: c_int) -> (result: Result<AddWrite, Error>)
        ensures
            result == self.after(r, err),
    {
        match search(r, err) {
            Ok(true) => Err(Error::Exists),
            Ok(false) => Ok(AddWrite { kq: self.kq, fd: self.fd, ty: self.ty }),
            Err(error) => Err(error),
        }
    }
}

impl AddWrite {
    /// What follows a reply of `kevent`.
    pub open spec fn after(self, r: c_int, err: c_int) -> Result<AddWatch, Error> {
        match search_outcome(r, err) {
            Ok(true) => Err(Error::Exists),
            Ok(false) => Ok(AddWatch { kq: self.kq, fd: self.fd, ty: self.ty }),
            Err(error) => Err(error),
        }
    }

    /// The call that is made.
    pub open spec fn call(self) -> Request {
        Request { kq: self.kq, changes: seq![change(self.fd, EVFILT_WRITE, EV_ENABLE)], nevents: 0 }
    }

    /// The call of `kevent` to make.
    pub fn request(&self) -> (call: Call)
        ensures
            call.makes(self.kq, seq![change(self.fd, EVFILT_WRITE, EV_ENABLE)]),
            call@ == self.call(),
    {
        make_call(self.kq, self.fd, EVFILT_WRITE, EV_ENABLE)
    }

    /// `kevent` has returned `r` and left the error number `err`.
    ///
    /// Returns `Err` if the descriptor is in the set or if an underlying error occurred.
    pub fn searched(self, r: c_int, err: c_int) -> (result: Result<AddWatch, Error>)
        ensures
            result == self.after(r, err),
    {
        match search(r, err) {
            Ok(true) => Err(Error::Exists),
            Ok(false) => Ok(AddWatch { kq: self.kq, fd: self.fd, ty: self.ty }),
            Err(error) => Err(error),
        }
    }
}

impl AddWatch {
    /// The call that is made.
    pub open spec fn call(self) -> Request {
        Request { kq: self.kq, changes: watch(self.fd, self.ty), nevents: 0 }
    }

    /// The call of `kevent` to make.
    pub fn request(&self) -> (call: Call)
        ensures
            call.makes(self.kq, watch(self.fd, self.ty)),
            call@ == self.call(),
    {
        Call { kq: self.kq, changes: make_watch(self.fd, self.ty), nevents: 0 }
    }

    /// `kevent` has returned `r` and left the error number `err`.
    ///
    /// Returns `Err` if an underlying error occurred.
    pub fn added(self, r: c_int, err: c_int) -> (result: Result<(), Error>)
        ensures
            result == add_outcome(r, err),
    {
        add_result(r, err)
    }
}

/// First step of modifying a descriptor: looking for a read filter.
#[derive(Debug, PartialEq, Eq)]
pub struct ModifyRead {
    pub kq: c_int,
    pub fd: c_int,
    pub ty: Type,
}

/// Second step of modifying a descriptor: looking for a write filter.
#[derive(Debug, PartialEq, Eq)]
pub struct ModifyWrite {
    pub kq: c_int,
    pub fd: c_int,
    pub ty: Type,
    /// There is a read filter.
    pub found: bool,
}

/// Third step of modifying a descriptor: its new filters, beside those that it has.
#[derive(Debug, PartialEq, Eq)]
pub struct ModifyWatch {
    pub kq: c_int,
    pub fd: c_int,
    pub ty: Type,
}

/// Last step of modifying a descriptor: removing the filter that it is to lose.
#[derive(Debug, PartialEq, Eq)]
pub struct ModifyRest {
    pub kq: c_int,
    pub fd: c_int,
    /// The filter that it is to lose.
    pub filter: c_short,
}

impl ModifyRead {
    /// What follows a reply of `kevent`.
    pub open spec fn after(self, r: c_int, err: c_int) -> Result<ModifyWrite, Error> {
        match search_outcome(r, err) {
            Ok(found) => Ok(ModifyWrite { kq: self.kq, fd: self.fd, ty: self.ty, found }),
            Err(error) => Err(error),
        }
    }

    /// The call that is made.
    pub open spec fn call(self) -> Request {
        Request { kq: self.kq, changes: seq![change(self.fd, EVFILT_READ, EV_ENABLE)], nevents: 0 }
    }

    /// The call of `kevent` to make.
    pub fn request(&self) -> (call: Call)
        ensures
            call.makes(self.kq, seq![change(self.fd, EVFILT_READ, EV_ENABLE)]),
            call@ == self.call(),
    {
        make_call(self.kq, self.fd, EVFILT_READ, EV_ENABLE)
    }

    /// `kevent` has returned `r` and left the error number `err`.
    ///
    /// Returns `Err` if an underlying error occurred.
    pub fn searched(self, r: c_int, err: c_int) -> (result: Result<ModifyWrite, Error>)
        ensures
            result == self.after(r, err),
    {
        match search(r, err) {
            Ok(found) => Ok(ModifyWrite { kq: self.kq, fd: self.fd, ty: self.ty, found }),
            Err(error) => Err(error),
        }
    }
}

impl ModifyWrite {
    /// What follows a reply of `kevent`.
    pub open spec fn after(self, r: c_int, err: c_int) -> Result<ModifyWatch, Error> {
        match search_outcome(r, err) {
            Ok(found) => if self.found || found {
                Ok(ModifyWatch { kq: self.kq, fd: self.fd, ty: self.ty })
            } else {
                Err(Error::DoesntExist)
            },
            Err(error) => Err(error),
        }
    }

    /// The call that is made.
    pub open spec fn call(self) -> Request {
        Request { kq: self.kq, changes: seq![change(self.fd, EVFILT_WRITE, EV_ENABLE)], nevents: 0 }
    }

    /// The call of `kevent` to make.
    pub fn request(&self) -> (call: Call)
        ensures
            call.makes(self.kq, seq![change(self.fd, EVFILT_WRITE, EV_ENABLE)]),
            call@ == self.call(),
    {
        make_call(self.kq, self.fd, EVFILT_WRITE, EV_ENABLE)
    }

    /// `kevent` has returned `r` and left the error number `err`.
    ///
    /// Returns `Err` if the descriptor isn't in the set or if an underlying error occurred.
    pub fn searched(self, r: c_int, err: c_int) -> (result: Result<ModifyWatch, Error>)
        ensures
            result == self.after(r, err),
    {
        match search(r, err) {
            Ok(found) => if self.found || found {
                Ok(ModifyWatch { kq: self.kq, fd: self.fd, ty: self.ty })
            } else {
                Err(Error::DoesntExist)
            },
            Err(error) => Err(error),
        }
    }
}

impl ModifyWatch {
    /// What follows a reply of `kevent`: nothing more, if the descriptor is to keep both filters.
    pub open spec fn after(self, r: c_int, err: c_int) -> Result<Option<ModifyRest>, Error> {
        match add_outcome(r, err) {
            Ok(_) => Ok(
                match self.ty {
                    Type::Read => Some(
                        ModifyRest { kq: self.kq, fd: self.fd, filter: EVFILT_WRITE },
                    ),
                    Type::Write => Some(
                        ModifyRest { kq: self.kq, fd: self.fd, filter: EVFILT_READ },
                    ),
                    Type::ReadWrite => None,
                },
            ),
            Err(error) => Err(error),
        }
    }

    /// The call that is made.
    pub open spec fn call(self) -> Request {
        Request { kq: self.kq, changes: watch(self.fd, self.ty), nevents: 0 }
    }

    /// The call of `kevent` to make.
    pub fn request(&self) -> (call: Call)
        ensures
            call.makes(self.kq, watch(self.fd, self.ty)),
            call@ == self.call(),
    {
        Call { kq: self.kq, changes: make_watch(self.fd, self.ty), nevents: 0 }
    }

    /// `kevent` has returned `r` and left the error number `err`.
    ///
    /// Returns `Err` if an underlying error occurred.
    pub fn added(self, r: c_int, err: c_int) -> (result: Result<Option<ModifyRest>, Error>)
        ensures
            result == self.after(r, err),
    {
        match add_result(r, err) {
            Ok(_) => Ok(
                match self.ty {
                    Type::Read => Some(
                        ModifyRest { kq: self.kq, fd: self.fd, filter: EVFILT_WRITE },
                    ),
                    Type::Write => Some(
                        ModifyRest { kq: self.kq, fd: self.fd, filter: EVFILT_READ },
                    ),
                    Type::ReadWrite => None,
                },
            ),
            Err(error) => Err(error),
        }
    }
}

impl ModifyRest {
    /// The call that is made.
    pub open spec fn call(self) -> Request {
        Request { kq: self.kq, changes: seq![change(self.fd, self.filter, EV_DELETE)], nevents: 0 }
    }

    /// The call of `kevent` to make.
    pub fn request(&self) -> (call: Call)
        ensures
            call.makes(self.kq, seq![change(self.fd, self.filter, EV_DELETE)]),
            call@ == self.call(),
    {
        make_call(self.kq, self.fd, self.filter, EV_DELETE)
    }

    /// `kevent` has returned `r` and left the error number `err`.
    ///
    /// Returns `Err` if an underlying error occurred.
    pub fn removed(self, r: c_int, err: c_int) -> (result: Result<(), Error>)
        ensures
            result == rest_outcome(r, err),
    {
        if r != -1 || err == errno::enoent() {
            Ok(())
        } else {
            Err(report_add_error(err))
        }
    }
}

/// First step of removing a descriptor: its read filter.
#[derive(Debug, PartialEq, Eq)]
pub struct DeleteRead {
    pub kq: c_int,
    pub fd: c_int,
}

/// Last step of removing a descriptor: its write filter.
#[derive(Debug, PartialEq, Eq)]
pub struct DeleteWrite {
    pub kq: c_int,
    pub fd: c_int,
    /// The read filter was missing.
    pub not_found: bool,
}

impl DeleteRead {
    /// What follows a reply of `kevent`.
    pub open spec fn after(self, r: c_int, err: c_int) -> Result<DeleteWrite, Error> {
        match read_filter_outcome(r, err) {
            Ok(not_found) => Ok(DeleteWrite { kq: self.kq, fd: self.fd, not_found }),
            Err(error) => Err(error),
        }
    }

    /// The call that is made.
    pub open spec fn call(self) -> Request {
        Request { kq: self.kq, changes: seq![change(self.fd, EVFILT_READ, EV_DELETE)], nevents: 0 }
    }

    /// The call of `kevent` to make.
    pub fn request(&self) -> (call: Call)
        ensures
            call.makes(self.kq, seq![change(self.fd, EVFILT_READ, EV_DELETE)]),
            call@ == self.call(),
    {
        make_call(self.kq, self.fd, EVFILT_READ, EV_DELETE)
    }

    /// `kevent` has returned `r` and left the error number `err`.
    ///
    /// Returns `Err` if an underlying error occurred.
    pub fn removed(self, r: c_int, err: c_int) -> (result: Result<DeleteWrite, Error>)
        ensures
            result == self.after(r, err),
    {
        let not_found = if r != -1 {
            false
        } else if err == errno::ebadf() {
            return Err(Error::BadFD);
        } else if err == errno::enoent() {
            true
        } else {
            return Err(Error::Resources);
        };
        Ok(DeleteWrite { kq: self.kq, fd: self.fd, not_found })
    }
}

impl DeleteWrite {
    /// The call that is made.
    pub open spec fn call(self) -> Request {
        Request { kq: self.kq, changes: seq![change(self.fd, EVFILT_WRITE, EV_DELETE)], nevents: 0 }
    }

    /// The call of `kevent` to make.
    pub fn request(&self) -> (call: Call)
        ensures
            call.makes(self.kq, seq![change(self.fd, EVFILT_WRITE, EV_DELETE)]),
            call@ == self.call(),
    {
        make_call(self.kq, self.fd, EVFILT_WRITE, EV_DELETE)
    }

    /// `kevent` has returned `r` and left the error number `err`.
    ///
    /// Returns `Err` if the descriptor isn't in the set or if an underlying error occurred.
    pub fn removed(self, r: c_int, err: c_int) -> (result: Result<(), Error>)
        ensures
            result == write_filter_outcome(self.not_found, r, err),
    {
        if r != -1 {
            Ok(())
        } else if err == errno::ebadf() {
            Err(Error::BadFD)
        } else if err != errno::enoent() {
            Err(Error::Resources)
        } else if self.not_found {
            Err(Error::DoesntExist)
        } else {
            Ok(())
        }
    }
}

/// Mathematical model of an [`FDPoll`].
#[verifier::ext_equal]
pub struct Model {
    /// The queue.
    pub kq: c_int,
    /// The end of the abort pipe that the worker reads.
    pub read_end: c_int,
    /// The end of the abort pipe that `abort` writes to.
    pub write_end: c_int,
    /// What is shared with the worker.
    pub state: State<Event>,
}

impl Model {
    /// What `add` hands out.
    pub open spec fn add_request(self, fd: c_int, ty: Type) -> Result<AddRead, Error> {
        if self.state.running() {
            Err(Error::Waiting)
        } else {
            Ok(AddRead { kq: self.kq, fd, ty })
        }
    }

    /// What `modify` hands out.
    pub open spec fn modify_request(self, fd: c_int, ty: Type) -> Result<ModifyRead, Error> {
        if self.state.running() {
            Err(Error::Waiting)
        } else {
            Ok(ModifyRead { kq: self.kq, fd, ty })
        }
    }

    /// What `delete` hands out.
    pub open spec fn delete_request(self, fd: c_int) -> Result<DeleteRead, Error> {
        if self.state.running() {
            Err(Error::Waiting)
        } else {
            Ok(DeleteRead { kq: self.kq, fd })
        }
    }

    /// What `abort` hands out.
    pub open spec fn abort_request(self) -> Result<WriteCall, ()> {
        if self.state.running() {
            Ok(WriteCall { fd: self.write_end, byte: 0 })
        } else {
            Err(())
        }
    }

    /// What `start` hands out.
    pub open spec fn wait_request(self) -> Option<Request> {
        if self.state.readers > 0 {
            None
        } else {
            Some(
                Request {
                    kq: self.kq,
                    changes: Seq::empty(),
                    nevents: self.state.max as c_int,
                },
            )
        }
    }

    /// What `polled` hands out.
    pub open spec fn polled_request(self, r: c_int, err: c_int) -> Polled {
        if r == -1 {
            Polled::Notify(Err(crate::monitor::poll_error(err)))
        } else {
            Polled::Drain(ReadCall { fd: self.read_end, len: ABORT_LEN })
        }
    }

    /// What `drained` hands out.
    pub open spec fn drained_request(self, n: int) -> Drained {
        if n > 0 {
            Drained::Again(ReadCall { fd: self.read_end, len: ABORT_LEN })
        } else {
            match self.state.drain_notice(n) {
                Some(notice) => Drained::Notify(notice),
                None => Drained::Silent,
            }
        }
    }

    /// What `shut_down` closes.
    pub open spec fn closing(self) -> Seq<c_int> {
        seq![self.kq, self.write_end]
    }

    /// What the worker closes when it leaves.
    pub open spec fn leaving(self) -> c_int {
        self.read_end
    }
}

/// Poll set.
#[derive(Debug)]
pub struct FDPoll {
    kq: c_int,
    read_end: c_int,
    write_end: c_int,
    monitor: Monitor<Event>,
}

impl View for FDPoll {
    type V = Model;

    closed spec fn view(&self) -> Model {
        Model {
            kq: self.kq,
            read_end: self.read_end,
            write_end: self.write_end,
            state: self.monitor@,
        }
    }
}

impl FDPoll {
    /// What holds of every set.
    pub open spec fn wf(&self) -> bool {
        self@.state.wf()
    }

    /// Create a new set that can handle at most `max` events at the same time.
    ///
    /// Note that you can add arbitrarily many file descriptors to the set (as far as the
    /// operating system allows), but every `wait()` stores at most `max` events.
    ///
    /// The steps that follow end in a set, or in [`Failed`] if the underlying structure
    /// couldn't be created.
    pub fn new(max: usize) -> (first: NewQueue)
        ensures
            first == (NewQueue { max }),
            first == NewQueue::first(max),
    {
        NewQueue { max }
    }

    /// Whether a wait is running.
    pub fn running(&self) -> (running: bool)
        ensures
            running == self@.state.running(),
    {
        self.monitor.running()
    }

    /// Whether the worker has the stored events to itself.
    pub fn locked(&self) -> (locked: bool)
        ensures
            locked == self@.state.locked(),
    {
        self.monitor.locked()
    }

    /// Where the worker is.
    pub fn phase(&self) -> (phase: Phase)
        ensures
            phase == self@.state.phase,
    {
        self.monitor.phase()
    }

    /// How many waits the worker has not begun yet.
    pub fn permits(&self) -> (permits: u64)
        ensures
            permits == self@.state.permits,
    {
        self.monitor.permits()
    }

    /// How many [`Events`] are in use.
    pub fn readers(&self) -> (readers: u64)
        ensures
            readers == self@.state.readers,
    {
        self.monitor.readers()
    }

    /// How many events one wait stores at most.
    pub fn max(&self) -> (max: usize)
        ensures
            max == self@.state.max,
    {
        self.monitor.max()
    }

    /// Abort the current `wait()`: write to the abort pipe.
    ///
    /// Returns `Err` if `wait()` isn't running. If a wait has been accepted while the worker
    /// still looks into the abort pipe for the one before, the caller holds back until it is
    /// done, so that the write reaches the right wait.
    pub fn abort(&self) -> (result: Result<WriteCall, ()>)
        requires
            !self@.state.running() || !self@.state.draining(),
        ensures
            result == (if self@.state.running() {
                Ok::<WriteCall, ()>(WriteCall { fd: self@.write_end, byte: 0 })
            } else {
                Err::<WriteCall, ()>(())
            }),
            result == self@.abort_request(),
    {
        if !self.running() {
            return Err(());
        }
        Ok(WriteCall { fd: self.write_end, byte: 0 })
    }

    /// Return the container containing the events generated by the last `wait()`.
    ///
    /// Returns `Err` if `wait()` is currently running. While the worker stores the events of
    /// a wait that has just ended, the caller holds back until [`FDPoll::locked`] is false.
    pub fn events(&mut self) -> (result: Result<Events<Event>, ()>)
        requires
            old(self).wf(),
            old(self)@.state.running() || !old(self)@.state.locked(),
            old(self)@.state.readers < u64::MAX,
        ensures
            final(self).wf(),
            final(self)@ == (Model { state: old(self)@.state.read(), ..old(self)@ }),
            result is Err <==> old(self)@.state.running(),
            result matches Ok(events) ==> events@ == old(self)@.state.events,
            match result {
                Ok(events) => old(self)@.state.events_answer() == Ok::<Seq<Event>, ()>(events@),
                Err(_) => old(self)@.state.events_answer() == Err::<Seq<Event>, ()>(()),
            },
    {
        self.monitor.events()
    }

    /// Hand back a container that is no longer in use.
    pub fn release(&mut self, events: Events<Event>)
        requires
            old(self).wf(),
            old(self)@.state.readers > 0,
        ensures
            final(self).wf(),
            final(self)@ == (Model { state: old(self)@.state.released(), ..old(self)@ }),
    {
        self.monitor.release(events)
    }

    /// Start the wait process.
    ///
    /// Returns `Err` if `wait()` is currently running.
    pub fn wait(&mut self) -> (result: Result<(), ()>)
        requires
            old(self).wf(),
        ensures
            final(self).wf(),
            final(self)@ == (Model { state: old(self)@.state.waited(), ..old(self)@ }),
            result == (if old(self)@.state.running() {
                Err::<(), ()>(())
            } else {
                Ok::<(), ()>(())
            }),
            result == old(self)@.state.wait_answer(),
    {
        self.monitor.wait()
    }

    /// Add a file descriptor to the set, in the three steps that follow.
    ///
    /// Returns `Err` if `wait()` is currently running.
    pub fn add(&self, fd: c_int, ty: Type) -> (result: Result<AddRead, Error>)
        ensures
            result == (if self@.state.running() {
                Err::<AddRead, Error>(Error::Waiting)
            } else {
                Ok::<AddRead, Error>(AddRead { kq: self@.kq, fd, ty })
            }),
            result == self@.add_request(fd, ty),
    {
        if self.running() {
            return Err(Error::Waiting);
        }
        Ok(AddRead { kq: self.kq, fd, ty })
    }

    /// Modify a file descriptor in the set, in the steps that follow. It loses no filter before
    /// it has all those that it is to have.
    ///
    /// Returns `Err` if `wait()` is currently running.
    pub fn modify(&self, fd: c_int, ty: Type) -> (result: Result<ModifyRead, Error>)
        ensures
            result == (if self@.state.running() {
                Err::<ModifyRead, Error>(Error::Waiting)
            } else {
                Ok::<ModifyRead, Error>(ModifyRead { kq: self@.kq, fd, ty })
            }),
            result == self@.modify_request(fd, ty),
    {
        if self.running() {
            return Err(Error::Waiting);
        }
        Ok(ModifyRead { kq: self.kq, fd, ty })
    }

    /// Remove a file descriptor from the set, in the two steps that follow.
    ///
    /// Returns `Err` if `wait()` is currently running.
    pub fn delete(&self, fd: c_int) -> (result: Result<DeleteRead, Error>)
        ensures
            result == (if self@.state.running() {
                Err::<DeleteRead, Error>(Error::Waiting)
            } else {
                Ok::<DeleteRead, Error>(DeleteRead { kq: self@.kq, fd })
            }),
            result == self@.delete_request(fd),
    {
        if self.running() {
            return Err(Error::Waiting);
        }
        Ok(DeleteRead { kq: self.kq, fd })
    }

    /// The user's side is dropped: the worker is told to leave.
    ///
    /// Returns the descriptors to close, in order.
    pub fn shut_down(&mut self) -> (close: Vec<c_int>)
        requires
            old(self).wf(),
            old(self)@.state.permits < u64::MAX,
        ensures
            final(self).wf(),
            final(self)@ == (Model { state: old(self)@.state.stopped(), ..old(self)@ }),
            close@ == seq![old(self)@.kq, old(self)@.write_end],
            close@ == old(self)@.closing(),
    {
        self.monitor.stop();
        vec![self.kq, self.write_end]
    }

    /// The worker takes a permit, if there is one.
    pub fn acquire(&mut self) -> (wakeup: Wakeup)
        requires
            old(self).wf(),
            old(self)@.state.phase is Parked,
        ensures
            final(self).wf(),
            final(self)@ == (Model { state: old(self)@.state.acquired(), ..old(self)@ }),
            wakeup == old(self)@.state.wakeup(),
    {
        self.monitor.acquire()
    }

    /// Returns the descriptor that the worker closes when it leaves.
    pub fn left(&self) -> (close: c_int)
        ensures
            close == self@.read_end,
            close == self@.leaving(),
    {
        self.read_end
    }

    /// The worker begins to wait: the stored events are forgotten, and the call of `kevent`
    /// follows, whose reply goes to [`FDPoll::polled`].
    ///
    /// Returns `None`, with nothing changed, while the stored events are being read.
    pub fn start(&mut self) -> (call: Option<Call>)
        requires
            old(self).wf(),
            old(self)@.state.phase is Starting,
        ensures
            final(self).wf(),
            final(self)@ == (Model { state: old(self)@.state.started(), ..old(self)@ }),
            call is None <==> old(self)@.state.readers > 0,
            call matches Some(call) ==> call.awaits(
                old(self)@.kq,
                old(self)@.state.max as c_int,
            ),
            match call {
                Some(call) => old(self)@.wait_request() == Some(call@),
                None => old(self)@.wait_request() is None,
            },
    {
        if !self.monitor.start() {
            return None;
        }
        let max: usize = self.monitor.max();
        #[verifier::truncate]
        let nevents: c_int = max as c_int;
        Some(Call { kq: self.kq, changes: Vec::new(), nevents })
    }

    /// `kevent` has returned `r`: -1 if it failed with the error number `err`, and otherwise
    /// the number of events at the front of `buf`, which are stored.
    pub fn polled(&mut self, r: c_int, err: c_int, buf: Vec<Event>) -> (next: Polled)
        requires
            old(self).wf(),
            old(self)@.state.phase is Polling,
            -1 <= r,
            r <= buf@.len(),
            r <= old(self)@.state.max,
        ensures
            final(self).wf(),
            final(self)@ == (Model {
                state: old(self)@.state.polled(r as int, buf@),
                ..old(self)@
            }),
            next == (if r == -1 {
                Polled::Notify(Err(crate::monitor::poll_error(err)))
            } else {
                Polled::Drain(ReadCall { fd: old(self)@.read_end, len: ABORT_LEN })
            }),
            next == old(self)@.polled_request(r, err),
    {
        if self.monitor.polled(r, buf) {
            Polled::Drain(ReadCall { fd: self.read_end, len: ABORT_LEN })
        } else {
            Polled::Notify(Err(report_poll_error(err)))
        }
    }

    /// A read of the abort pipe has returned `n`. The pipe is read until it holds nothing.
    ///
    /// If it held nothing from the start, the wait was not aborted, and a message is sent.
    pub fn drained(&mut self, n: isize) -> (next: Drained)
        requires
            old(self).wf(),
            old(self)@.state.draining(),
        ensures
            final(self).wf(),
            final(self)@ == (Model { state: old(self)@.state.drained(n as int), ..old(self)@ }),
            next == (if n > 0 {
                Drained::Again(ReadCall { fd: old(self)@.read_end, len: ABORT_LEN })
            } else {
                match old(self)@.state.drain_notice(n as int) {
                    Some(notice) => Drained::Notify(notice),
                    None => Drained::Silent,
                }
            }),
            next == old(self)@.drained_request(n as int),
    {
        if n > 0 {
            self.monitor.discard();
            return Drained::Again(ReadCall { fd: self.read_end, len: ABORT_LEN });
        }
        let aborted = match self.monitor.phase() {
            Phase::Draining => false,
            _ => true,
        };
        self.monitor.finish();
        if aborted {
            Drained::Silent
        } else {
            Drained::Notify(Ok(()))
        }
    }
}

} // verus!

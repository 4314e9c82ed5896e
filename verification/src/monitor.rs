//! The state that the user's side of a poll set shares with its worker.
//!
//! The worker repeats one round for ever: it takes a permit, waits until nobody reads the
//! stored events, lets the kernel wait, stores what the kernel found, empties the abort
//! descriptor and sends at most one message. `wait` adds a permit. A wait is running from the
//! moment it is accepted until the kernel has answered, whether or not the worker has already
//! taken its permit.
use crate::errno;
use crate::types::Error;
use libc::c_int;
use std::sync::Arc;
use vstd::prelude::*;

verus! {

/// Where the worker is.
#[derive(Clone, Copy, Debug, PartialEq, Eq, Structural)]
pub enum Phase {
    /// At the semaphore, without a permit.
    Parked,
    /// It has a permit and waits for the readers of the stored events to leave.
    Starting,
    /// In the kernel, with the stored events to itself.
    Polling,
    /// The events are stored; it looks into the abort descriptor.
    Draining,
    /// The round was aborted; it empties the abort descriptor.
    Discarding,
    /// It has left for good.
    Exited,
}

/// What the worker found at the semaphore.
#[derive(Clone, Copy, Debug, PartialEq, Eq, Structural)]
pub enum Wakeup {
    /// There is no permit: try again when one has been added.
    Blocked,
    /// The set is being dropped: leave.
    Exit,
    /// Begin a round.
    Run,
}

/// A message to the user: the outcome of one wait.
pub type Notice = Result<(), Error>;

/// How a wait that the kernel ended with the error number `err` is reported.
pub open spec fn poll_error(err: c_int) -> Error {
    if err == errno::interrupted() {
        Error::Signal
    } else {
        Error::Resources
    }
}

/// Returns how a wait that the kernel ended with the error number `err` is reported.
pub(crate) fn report_poll_error(err: c_int) -> (error: Error)
    ensures
        error == poll_error(err),
{
    if err == errno::eintr() {
        Error::Signal
    } else {
        Error::Resources
    }
}

/// Mathematical model of a [`Monitor`].
#[verifier::ext_equal]
pub struct State<E> {
    /// Where the worker is.
    pub phase: Phase,
    /// The set is being dropped.
    pub stop: bool,
    /// Permits that the worker has not taken yet.
    pub permits: nat,
    /// How many [`Events`] are in use.
    pub readers: nat,
    /// How many events one wait stores at most.
    pub max: nat,
    /// The events that the last wait stored.
    pub events: Seq<E>,
}

impl<E> State<E> {
    /// A fresh set: nothing pending, nothing stored.
    pub open spec fn initial(max: nat) -> Self {
        State {
            phase: Phase::Parked,
            stop: false,
            permits: 0,
            readers: 0,
            max,
            events: Seq::empty(),
        }
    }

    /// A wait is running: the worker has yet to take it up, or the kernel has yet to answer.
    pub open spec fn running(self) -> bool {
        self.permits > 0 || self.phase is Starting || self.phase is Polling
    }

    /// The worker has the stored events to itself.
    pub open spec fn locked(self) -> bool {
        self.phase is Polling || self.phase is Draining || self.phase is Discarding
    }

    /// The worker looks into the abort descriptor: the kernel has answered, and the round isn't
    /// over.
    pub open spec fn draining(self) -> bool {
        self.phase is Draining || self.phase is Discarding
    }

    /// What holds in every reachable state.
    pub open spec fn wf(self) -> bool {
        &&& self.events.len() <= self.max
        &&& self.readers > 0 ==> !self.locked()
        &&& self.phase is Polling ==> self.events.len() == 0
        &&& !self.stop ==> self.permits <= 1
        &&& !self.stop && (self.phase is Starting || self.phase is Polling) ==> self.permits == 0
        &&& self.stop && !(self.phase is Exited) ==> self.permits > 0
        &&& self.phase is Exited ==> self.stop
    }

    /// `wait`: one more permit, unless a wait is running.
    pub open spec fn waited(self) -> Self {
        if self.running() {
            self
        } else {
            State { permits: self.permits + 1, ..self }
        }
    }

    /// What `wait` answers.
    pub open spec fn wait_answer(self) -> Result<(), ()> {
        if self.running() {
            Err(())
        } else {
            Ok(())
        }
    }

    /// What `events` answers.
    pub open spec fn events_answer(self) -> Result<Seq<E>, ()> {
        if self.running() {
            Err(())
        } else {
            Ok(self.events)
        }
    }

    /// `events`: one more reader, unless a wait is running.
    pub open spec fn read(self) -> Self {
        if self.running() {
            self
        } else {
            State { readers: self.readers + 1, ..self }
        }
    }

    /// A reader leaves.
    pub open spec fn released(self) -> Self {
        State { readers: (self.readers - 1) as nat, ..self }
    }

    /// The set is dropped: the worker is told to leave and woken.
    pub open spec fn stopped(self) -> Self {
        State { stop: true, permits: self.permits + 1, ..self }
    }

    /// What the worker finds at the semaphore.
    pub open spec fn wakeup(self) -> Wakeup {
        if self.permits == 0 {
            Wakeup::Blocked
        } else if self.stop {
            Wakeup::Exit
        } else {
            Wakeup::Run
        }
    }

    /// The worker takes a permit, if there is one.
    pub open spec fn acquired(self) -> Self {
        match self.wakeup() {
            Wakeup::Blocked => self,
            Wakeup::Exit => State {
                phase: Phase::Exited,
                permits: (self.permits - 1) as nat,
                ..self
            },
            Wakeup::Run => State {
                phase: Phase::Starting,
                permits: (self.permits - 1) as nat,
                ..self
            },
        }
    }

    /// The worker takes the stored events for itself and forgets them, unless they are read.
    pub open spec fn started(self) -> Self {
        if self.readers > 0 {
            self
        } else {
            State { phase: Phase::Polling, events: Seq::empty(), ..self }
        }
    }

    /// The kernel has answered `r` after it wrote events to the front of `buf`.
    pub open spec fn polled(self, r: int, buf: Seq<E>) -> Self {
        if r == -1 {
            State { phase: Phase::Parked, ..self }
        } else {
            State { phase: Phase::Draining, events: buf.take(r), ..self }
        }
    }

    /// The abort descriptor, which one read empties, has been read.
    pub open spec fn drained_once(self) -> Self {
        State { phase: Phase::Parked, ..self }
    }

    /// A read of the abort descriptor, which is read until it is empty, has returned `n`.
    pub open spec fn drained(self, n: int) -> Self {
        State {
            phase: if n > 0 {
                Phase::Discarding
            } else {
                Phase::Parked
            },
            ..self
        }
    }

    /// The message that follows a read of the abort descriptor that has returned `n`: none if
    /// this read or an earlier one found that the wait was aborted.
    pub open spec fn drain_notice(self, n: int) -> Option<Notice> {
        if n <= 0 && self.phase is Draining {
            Some(Ok(()))
        } else {
            None
        }
    }
}

/// Container for the events made available by the last wait.
///
/// It is in use until it is handed back with `release`.
#[derive(Debug)]
pub struct Events<E> {
    lock: Arc<Vec<E>>,
}

impl<E> View for Events<E> {
    type V = Seq<E>;

    closed spec fn view(&self) -> Seq<E> {
        self.lock@
    }
}

impl<E> Events<E> {
    /// Get the events created by the last wait.
    pub fn slice(&self) -> (events: &[E])
        ensures
            events@ == self@,
    {
        self.lock.as_slice()
    }
}

/// The state that the user's side of a poll set shares with its worker.
#[derive(Debug)]
pub struct Monitor<E> {
    phase: Phase,
    stop: bool,
    permits: u64,
    readers: u64,
    max: usize,
    events: Arc<Vec<E>>,
}

impl<E> View for Monitor<E> {
    type V = State<E>;

    closed spec fn view(&self) -> State<E> {
        State {
            phase: self.phase,
            stop: self.stop,
            permits: self.permits as nat,
            readers: self.readers as nat,
            max: self.max as nat,
            events: self.events@,
        }
    }
}

impl<E> Monitor<E> {
    /// A fresh state, for waits that store at most `max` events.
    pub fn new(max: usize) -> (monitor: Self)
        ensures
            monitor@ == State::<E>::initial(max as nat),
            monitor@.wf(),
    {
        let monitor = Monitor {
            phase: Phase::Parked,
            stop: false,
            permits: 0,
            readers: 0,
            max,
            events: Arc::new(Vec::new()),
        };
        assert(monitor@ =~= State::<E>::initial(max as nat));
        monitor
    }

    /// Where the worker is.
    pub fn phase(&self) -> (phase: Phase)
        ensures
            phase == self@.phase,
    {
        self.phase
    }

    /// Whether a wait is running.
    pub fn running(&self) -> (running: bool)
        ensures
            running == self@.running(),
    {
        self.permits > 0 || match self.phase {
            Phase::Starting | Phase::Polling => true,
            _ => false,
        }
    }

    /// Whether the worker has the stored events to itself.
    pub fn locked(&self) -> (locked: bool)
        ensures
            locked == self@.locked(),
    {
        match self.phase {
            Phase::Polling | Phase::Draining | Phase::Discarding => true,
            _ => false,
        }
    }

    /// How many permits the worker has not taken yet.
    pub fn permits(&self) -> (permits: u64)
        ensures
            permits == self@.permits,
    {
        self.permits
    }

    /// How many [`Events`] are in use.
    pub fn readers(&self) -> (readers: u64)
        ensures
            readers == self@.readers,
    {
        self.readers
    }

    /// How many events one wait stores at most.
    pub fn max(&self) -> (max: usize)
        ensures
            max == self@.max,
    {
        self.max
    }

    /// Start the wait process: add a permit for the worker.
    ///
    /// Returns `Err` if a wait is currently running.
    pub fn wait(&mut self) -> (result: Result<(), ()>)
        requires
            old(self)@.wf(),
        ensures
            final(self)@ == old(self)@.waited(),
            final(self)@.wf(),
            result == (if old(self)@.running() {
                Err::<(), ()>(())
            } else {
                Ok::<(), ()>(())
            }),
            result == old(self)@.wait_answer(),
    {
        if self.running() {
            return Err(());
        }
        self.permits = self.permits + 1;
        Ok(())
    }

    /// Return the container containing the events generated by the last wait.
    ///
    /// Returns `Err` if a wait is currently running. While the worker stores the events of a
    /// wait that has just ended, the caller holds back until [`Monitor::locked`] is false.
    pub fn events(&mut self) -> (result: Result<Events<E>, ()>)
        requires
            old(self)@.wf(),
            old(self)@.running() || !old(self)@.locked(),
            old(self)@.readers < u64::MAX,
        ensures
            final(self)@ == old(self)@.read(),
            final(self)@.wf(),
            result is Err <==> old(self)@.running(),
            result matches Ok(events) ==> events@ == old(self)@.events,
            match result {
                Ok(events) => old(self)@.events_answer() == Ok::<Seq<E>, ()>(events@),
                Err(_) => old(self)@.events_answer() == Err::<Seq<E>, ()>(()),
            },
    {
        if self.running() {
            return Err(());
        }
        self.readers = self.readers + 1;
        Ok(Events { lock: self.events.clone() })
    }

    /// Hand a container back: its reader leaves.
    pub fn release(&mut self, events: Events<E>)
        requires
            old(self)@.wf(),
            old(self)@.readers > 0,
        ensures
            final(self)@ == old(self)@.released(),
            final(self)@.wf(),
    {
        self.readers = self.readers - 1;
    }

    /// Tell the worker to leave, and wake it.
    pub fn stop(&mut self)
        requires
            old(self)@.wf(),
            old(self)@.permits < u64::MAX,
        ensures
            final(self)@ == old(self)@.stopped(),
            final(self)@.wf(),
    {
        self.stop = true;
        self.permits = self.permits + 1;
    }

    /// The worker takes a permit, if there is one.
    pub fn acquire(&mut self) -> (wakeup: Wakeup)
        requires
            old(self)@.wf(),
            old(self)@.phase is Parked,
        ensures
            final(self)@ == old(self)@.acquired(),
            final(self)@.wf(),
            wakeup == old(self)@.wakeup(),
    {
        if self.permits == 0 {
            return Wakeup::Blocked;
        }
        self.permits = self.permits - 1;
        if self.stop {
            self.phase = Phase::Exited;
            Wakeup::Exit
        } else {
            self.phase = Phase::Starting;
            Wakeup::Run
        }
    }

    /// The worker takes the stored events for itself and forgets them.
    ///
    /// Returns `false`, with nothing changed, while they are being read.
    pub fn start(&mut self) -> (started: bool)
        requires
            old(self)@.wf(),
            old(self)@.phase is Starting,
        ensures
            final(self)@ == old(self)@.started(),
            final(self)@.wf(),
            started <==> old(self)@.readers == 0,
            started <==> final(self)@.phase is Polling,
    {
        if self.readers > 0 {
            return false;
        }
        self.phase = Phase::Polling;
        self.events = Arc::new(Vec::new());
        assert(self@ =~= old(self)@.started());
        true
    }

    /// The kernel has answered: `r` is -1 if the wait failed, and otherwise the number of
    /// events at the front of `buf`, which are stored.
    ///
    /// Returns whether events were stored.
    pub fn polled(&mut self, r: c_int, mut buf: Vec<E>) -> (stored: bool)
        requires
            old(self)@.wf(),
            old(self)@.phase is Polling,
            -1 <= r,
            r <= buf@.len(),
            r <= old(self)@.max,
        ensures
            final(self)@ == old(self)@.polled(r as int, buf@),
            final(self)@.wf(),
            stored <==> r != -1,
            stored <==> final(self)@.phase is Draining,
    {
        if r == -1 {
            self.phase = Phase::Parked;
            return false;
        }
        let ghost filled = buf@;
        buf.truncate(r as usize);
        self.phase = Phase::Draining;
        self.events = Arc::new(buf);
        assert(self@ =~= old(self)@.polled(r as int, filled));
        true
    }

    /// The worker goes on emptying the abort descriptor.
    pub fn discard(&mut self)
        requires
            old(self)@.wf(),
            old(self)@.draining(),
        ensures
            final(self)@ == (State { phase: Phase::Discarding, ..old(self)@ }),
            final(self)@.wf(),
    {
        self.phase = Phase::Discarding;
    }

    /// The round is over: the worker goes back to the semaphore.
    pub fn finish(&mut self)
        requires
            old(self)@.wf(),
            old(self)@.draining(),
        ensures
            final(self)@ == (State { phase: Phase::Parked, ..old(self)@ }),
            final(self)@.wf(),
    {
        self.phase = Phase::Parked;
    }
}

} // verus!

//! What holds of every run of a poll set.
//!
//! A run is a sequence of steps, each of which is one call of a method of a poll set. The
//! user's steps and the worker's may come in any order that the methods' preconditions allow.
use crate::monitor::{Notice, Phase, State};
use crate::types::Error;
use libc::c_int;
use vstd::prelude::*;

verus! {

/// One call that may change the shared state.
pub enum Step<E> {
    /// `wait`.
    Wait,
    /// `events`.
    Read,
    /// `release`.
    Release,
    /// `shut_down`.
    Stop,
    /// `acquire`.
    Acquire,
    /// `start`.
    Start,
    /// `abort`, when it is accepted, and whether the write that it asks for was made.
    Abort { written: bool },
    /// `polled`, with the kernel's answer and what it wrote.
    Polled { r: int, err: c_int, buf: Seq<E> },
    /// `drained` of the set on `epoll`, with what the read returned.
    DrainedOnce { n: int },
    /// `drained` of the set on `kqueue`, with what the read returned.
    Drained { n: int },
}

impl<E> State<E> {
    /// The step may be made in this state.
    pub open spec fn allows(self, step: Step<E>) -> bool {
        match step {
            Step::Wait => true,
            Step::Read => self.running() || !self.locked(),
            Step::Release => self.readers > 0,
            Step::Stop => true,
            Step::Acquire => self.phase is Parked,
            Step::Start => self.phase is Starting,
            Step::Abort { written } => self.running() && !self.draining(),
            Step::Polled { r, err, buf } => {
                &&& self.phase is Polling
                &&& -1 <= r <= buf.len()
                &&& r <= self.max
            },
            Step::DrainedOnce { n } => self.phase is Draining,
            Step::Drained { n } => self.draining(),
        }
    }

    /// The state after the step.
    pub open spec fn after(self, step: Step<E>) -> Self {
        match step {
            Step::Wait => self.waited(),
            Step::Read => self.read(),
            Step::Release => self.released(),
            Step::Stop => self.stopped(),
            Step::Acquire => self.acquired(),
            Step::Start => self.started(),
            Step::Abort { written } => self,
            Step::Polled { r, err, buf } => self.polled(r, buf),
            Step::DrainedOnce { n } => self.drained_once(),
            Step::Drained { n } => self.drained(n),
        }
    }

    /// The message that the worker sends after the step, if any.
    pub open spec fn message(self, step: Step<E>) -> Option<Notice> {
        match step {
            Step::Polled { r, err, buf } => if r == -1 {
                Some(Err(crate::monitor::poll_error(err)))
            } else {
                None
            },
            Step::DrainedOnce { n } => self.drain_notice(n),
            Step::Drained { n } => self.drain_notice(n),
            _ => None,
        }
    }

    /// The worker is in the middle of a round.
    pub open spec fn in_round(self) -> bool {
        self.phase is Starting || self.locked()
    }

    /// The step ends a round.
    pub open spec fn ends_round(self, step: Step<E>) -> bool {
        self.in_round() && !self.after(step).in_round()
    }

    /// The state after a run.
    pub open spec fn run(self, steps: Seq<Step<E>>) -> Self
        decreases steps.len(),
    {
        if steps.len() == 0 {
            self
        } else {
            self.run(steps.drop_last()).after(steps.last())
        }
    }

    /// Each step of the run may be made when its turn comes.
    pub open spec fn allows_run(self, steps: Seq<Step<E>>) -> bool
        decreases steps.len(),
    {
        steps.len() > 0 ==> {
            &&& self.allows_run(steps.drop_last())
            &&& self.run(steps.drop_last()).allows(steps.last())
        }
    }

    /// How many waits the run accepts.
    pub open spec fn accepted(self, steps: Seq<Step<E>>) -> nat
        decreases steps.len(),
    {
        if steps.len() == 0 {
            0
        } else {
            let before = self.run(steps.drop_last());
            self.accepted(steps.drop_last()) + if steps.last() is Wait && !before.running() {
                1nat
            } else {
                0nat
            }
        }
    }

    /// The messages that the worker sends in the run, in order.
    pub open spec fn messages(self, steps: Seq<Step<E>>) -> Seq<Notice>
        decreases steps.len(),
    {
        if steps.len() == 0 {
            Seq::empty()
        } else {
            let before = self.run(steps.drop_last());
            match before.message(steps.last()) {
                Some(notice) => self.messages(steps.drop_last()).push(notice),
                None => self.messages(steps.drop_last()),
            }
        }
    }

    /// How many rounds end in the run without a message, as aborted ones do.
    pub open spec fn silent(self, steps: Seq<Step<E>>) -> nat
        decreases steps.len(),
    {
        if steps.len() == 0 {
            0
        } else {
            let before = self.run(steps.drop_last());
            self.silent(steps.drop_last()) + if before.ends_round(steps.last())
                && before.message(steps.last()) is None {
                1nat
            } else {
                0nat
            }
        }
    }

    /// What the kernel answered last in the run, and what it had written.
    pub open spec fn last_polled(steps: Seq<Step<E>>) -> Option<(int, Seq<E>)>
        decreases steps.len(),
    {
        if steps.len() == 0 {
            None
        } else {
            match steps.last() {
                Step::Polled { r, err, buf } => Some((r, buf)),
                _ => State::last_polled(steps.drop_last()),
            }
        }
    }

    /// How many times the run tells the worker to leave.
    pub open spec fn stops(self, steps: Seq<Step<E>>) -> nat
        decreases steps.len(),
    {
        if steps.len() == 0 {
            0
        } else {
            self.stops(steps.drop_last()) + if steps.last() is Stop {
                1nat
            } else {
                0nat
            }
        }
    }
}

/// Every state that can be reached is well-formed. In particular, it never stores more than
/// `max` events, and the worker never has the stored events to itself while they are read.
pub proof fn reachable_states_are_well_formed<E>(max: nat, steps: Seq<Step<E>>)
    requires
        State::<E>::initial(max).allows_run(steps),
    ensures
        State::<E>::initial(max).run(steps).wf(),
        State::<E>::initial(max).run(steps).max == max,
        State::<E>::initial(max).run(steps).events.len() <= max,
    decreases steps.len(),
{
    if steps.len() > 0 {
        reachable_states_are_well_formed::<E>(max, steps.drop_last());
    }
}

/// Every wait that is accepted is answered once, and none is lost: its round has ended, in one
/// message or silently, or it is the one that the worker is at, or its permit is still there.
/// The permits of a dropped set are accounted for in the same way; the worker takes one of
/// them to leave.
pub proof fn each_wait_is_answered_once<E>(max: nat, steps: Seq<Step<E>>)
    requires
        State::<E>::initial(max).allows_run(steps),
    ensures
        ({
            let start = State::<E>::initial(max);
            let end = start.run(steps);
            start.accepted(steps) + start.stops(steps) == start.messages(steps).len()
                + start.silent(steps) + end.permits + (if end.in_round() || end.phase is Exited {
                1int
            } else {
                0int
            })
        }),
    decreases steps.len(),
{
    if steps.len() > 0 {
        each_wait_is_answered_once::<E>(max, steps.drop_last());
    }
}

/// A run that is made of two goes through the state in the middle.
proof fn lemma_concat<E>(state: State<E>, first: Seq<Step<E>>, second: Seq<Step<E>>)
    ensures
        state.run(first + second) == state.run(first).run(second),
        state.allows_run(first + second) <==> state.allows_run(first) && state.run(
            first,
        ).allows_run(second),
        state.messages(first + second) == state.messages(first) + state.run(first).messages(
            second,
        ),
    decreases second.len(),
{
    if second.len() == 0 {
        assert(first + second =~= first);
        assert(state.run(first).messages(second) =~= Seq::empty());
        assert(state.messages(first) + Seq::<Notice>::empty() =~= state.messages(first));
    } else {
        let whole = first + second;
        assert(whole.drop_last() =~= first + second.drop_last());
        assert(whole.last() == second.last());
        lemma_concat(state, first, second.drop_last());
        assert(state.messages(whole) =~= state.messages(first) + state.run(first).messages(
            second,
        ));
    }
}

/// As long as some `Events` is in use, no step changes what is stored, whichever others are
/// handed out and handed back meanwhile.
pub proof fn events_in_use_never_change<E>(state: State<E>, steps: Seq<Step<E>>)
    requires
        state.wf(),
        state.allows_run(steps),
        forall|i: int|
            0 <= i <= steps.len() ==> (#[trigger] state.run(steps.take(i))).readers > 0,
    ensures
        state.run(steps).events == state.events,
        state.run(steps).wf(),
    decreases steps.len(),
{
    if steps.len() > 0 {
        let front = steps.drop_last();
        assert forall|i: int| 0 <= i <= front.len() implies (#[trigger] state.run(
            front.take(i),
        )).readers > 0 by {
            assert(front.take(i) =~= steps.take(i));
        }
        events_in_use_never_change(state, front);
        assert(steps.take(front.len() as int) =~= front);
    }
}

/// While no wait is running and none is asked for, the events can be read any number of times,
/// and are always the same: reading them uses nothing up.
pub proof fn reading_the_events_changes_nothing<E>(state: State<E>, steps: Seq<Step<E>>)
    requires
        !state.running(),
        !state.locked(),
        state.allows_run(steps),
        forall|i: int|
            0 <= i < steps.len() ==> #[trigger] steps[i] is Read || steps[i] is Release,
    ensures
        state.run(steps) == (State { readers: state.run(steps).readers, ..state }),
        state.run(steps).allows(Step::Read),
    decreases steps.len(),
{
    if steps.len() > 0 {
        let front = steps.drop_last();
        assert forall|i: int| 0 <= i < front.len() implies #[trigger] front[i] is Read
            || front[i] is Release by {
            assert(front[i] == steps[i]);
        }
        reading_the_events_changes_nothing(state, front);
        assert(steps[steps.len() - 1] is Read || steps[steps.len() - 1] is Release);
    }
}

/// A refused request changes nothing, and is refused exactly while a wait is running.
pub proof fn requests_are_refused_while_running<E>(state: State<E>)
    ensures
        state.running() ==> state.waited() == state && state.read() == state,
        !state.running() ==> state.waited() != state && state.read() != state,
{
    if !state.running() {
        assert(state.waited().permits != state.permits);
        assert(state.read().readers != state.readers);
    }
}

/// A wait runs from the moment it is accepted until the kernel answers, whatever else happens
/// and wherever the worker is; until then every further wait is refused.
pub proof fn a_wait_runs_until_the_kernel_answers<E>(state: State<E>, steps: Seq<Step<E>>)
    requires
        state.wf(),
        !state.running(),
        !state.stop,
        state.waited().allows_run(steps),
        forall|i: int| 0 <= i < steps.len() ==> !(#[trigger] steps[i] is Polled),
        forall|i: int| 0 <= i < steps.len() ==> !(#[trigger] steps[i] is Stop),
    ensures
        state.waited().run(steps).running(),
        state.waited().run(steps).waited() == state.waited().run(steps),
        !state.waited().run(steps).stop,
        state.phase is Parked ==> state.waited().run(steps).allows(Step::Abort { written: true }),
    decreases steps.len(),
{
    if steps.len() > 0 {
        let front = steps.drop_last();
        assert forall|i: int| 0 <= i < front.len() implies !(#[trigger] front[i] is Polled) by {
            assert(front[i] == steps[i]);
        }
        assert forall|i: int| 0 <= i < front.len() implies !(#[trigger] front[i] is Stop) by {
            assert(front[i] == steps[i]);
        }
        a_wait_runs_until_the_kernel_answers(state, front);
        assert(!(steps[steps.len() - 1] is Polled));
        assert(!(steps[steps.len() - 1] is Stop));
    }
}

/// The kernel's answer ends the wait: it is no longer running, and the next one is accepted.
pub proof fn the_kernels_answer_ends_the_wait<E>(
    state: State<E>,
    r: int,
    err: c_int,
    buf: Seq<E>,
)
    requires
        state.wf(),
        !state.stop,
        state.allows(Step::Polled { r, err, buf }),
    ensures
        state.running(),
        !state.polled(r, buf).running(),
{
}

/// A message is sent only when a round ends; it says that events are stored, or that the
/// kernel could not wait, and then none are.
pub proof fn a_message_ends_its_round<E>(state: State<E>, step: Step<E>)
    requires
        state.wf(),
        state.allows(step),
        state.message(step) is Some,
    ensures
        state.ends_round(step),
        state.after(step).phase is Parked,
        match state.message(step).unwrap() {
            Ok(_) => state.after(step).events == state.events,
            Err(error) => {
                &&& step matches Step::Polled { r, err, buf } && r == -1 && error
                    == crate::monitor::poll_error(err)
                &&& state.after(step).events == Seq::<E>::empty()
            },
        },
{
}

/// The stored events are those of the last wait that the kernel has answered: what it wrote,
/// or none if it failed or has never answered. They are forgotten only while the kernel waits.
pub proof fn stored_events_are_those_of_the_last_wait<E>(max: nat, steps: Seq<Step<E>>)
    requires
        State::<E>::initial(max).allows_run(steps),
    ensures
        ({
            let end = State::<E>::initial(max).run(steps);
            let found = match State::last_polled(steps) {
                Some((r, buf)) => if r == -1 {
                    Seq::<E>::empty()
                } else {
                    buf.take(r)
                },
                None => Seq::<E>::empty(),
            };
            &&& end.events == if end.phase is Polling {
                Seq::<E>::empty()
            } else {
                found
            }
            &&& end.draining() ==> {
                State::last_polled(steps) matches Some((r, buf)) && r != -1
            }
        }),
    decreases steps.len(),
{
    if steps.len() > 0 {
        stored_events_are_those_of_the_last_wait::<E>(max, steps.drop_last());
        reachable_states_are_well_formed::<E>(max, steps.drop_last());
    }
}

/// When the worker has just sent `Ok(())`, in any run, the stored events are those that the
/// kernel wrote in its last answer.
pub proof fn an_ok_message_announces_the_events<E>(max: nat, steps: Seq<Step<E>>)
    requires
        State::<E>::initial(max).allows_run(steps),
        steps.len() > 0,
        State::<E>::initial(max).run(steps.drop_last()).message(steps.last()) == Some::<Notice>(
            Ok(()),
        ),
    ensures
        State::last_polled(steps) matches Some((r, buf)) && r != -1 && State::<E>::initial(
            max,
        ).run(steps).events == buf.take(r),
{
    stored_events_are_those_of_the_last_wait::<E>(max, steps.drop_last());
    stored_events_are_those_of_the_last_wait::<E>(max, steps);
}

/// The beginning of an undisturbed round, up to the kernel's answer.
pub open spec fn opening<E>(r: int, err: c_int, buf: Seq<E>) -> Seq<Step<E>> {
    seq![Step::Acquire, Step::Start, Step::Polled { r, err, buf }]
}

/// The reads of the abort pipe, with what each of them returned.
pub open spec fn reads<E>(returned: Seq<int>) -> Seq<Step<E>> {
    Seq::new(returned.len(), |i: int| Step::Drained { n: returned[i] })
}

/// A worker at the semaphore that finds a permit and nothing in its way.
pub open spec fn ready<E>(state: State<E>) -> bool {
    &&& state.wf()
    &&& state.phase is Parked
    &&& state.permits > 0
    &&& !state.stop
    &&& state.readers == 0
}

/// The state after an undisturbed round of a worker that was ready.
pub open spec fn round_over<E>(state: State<E>, found: Seq<E>) -> State<E> {
    State { permits: (state.permits - 1) as nat, events: found, ..state }
}

/// One undisturbed round stores the events at the front of the kernel's buffer, uses up the
/// permit and, if the abort descriptor was empty, sends one message that says so: the next
/// request for the events gets just these.
pub proof fn a_round_stores_what_the_kernel_found<E>(
    state: State<E>,
    r: int,
    err: c_int,
    buf: Seq<E>,
    n: int,
    once: bool,
)
    requires
        ready(state),
        0 <= r <= buf.len(),
        r <= state.max,
        n <= 0,
    ensures
        ({
            let steps = opening(r, err, buf).push(
                if once {
                    Step::DrainedOnce { n }
                } else {
                    Step::Drained { n }
                },
            );
            &&& state.allows_run(steps)
            &&& state.messages(steps) == seq![Ok::<(), Error>(())]
            &&& state.run(steps) == round_over(state, buf.take(r))
            &&& !state.run(steps).running()
            &&& state.run(steps).allows(Step::Read)
        }),
{
    lemma_opening(state, r, err, buf);
    let last = if once {
        Step::<E>::DrainedOnce { n }
    } else {
        Step::Drained { n }
    };
    let steps = opening(r, err, buf).push(last);
    assert(steps.drop_last() =~= opening(r, err, buf));
    assert(steps.last() == last);
    assert(state.messages(steps) =~= seq![Ok::<(), Error>(())]);
}

/// On `epoll`, a round that was aborted sends no message. What the kernel found is stored all
/// the same.
pub proof fn an_aborted_round_is_silent_on_epoll<E>(
    state: State<E>,
    r: int,
    err: c_int,
    buf: Seq<E>,
    n: int,
)
    requires
        ready(state),
        0 <= r <= buf.len(),
        r <= state.max,
        n > 0,
    ensures
        ({
            let steps = opening(r, err, buf).push(Step::DrainedOnce { n });
            &&& state.allows_run(steps)
            &&& state.messages(steps) == Seq::<Notice>::empty()
            &&& state.run(steps) == round_over(state, buf.take(r))
        }),
{
    lemma_opening(state, r, err, buf);
    let steps = opening(r, err, buf).push(Step::DrainedOnce { n });
    assert(steps.drop_last() =~= opening(r, err, buf));
    assert(steps.last() == Step::<E>::DrainedOnce { n });
}

/// On `kqueue`, a round that was aborted goes on until the abort pipe is empty, after however
/// many reads, and sends no message. What the kernel found is stored all the same.
pub proof fn an_aborted_round_is_silent_on_kqueue<E>(
    state: State<E>,
    r: int,
    err: c_int,
    buf: Seq<E>,
    returned: Seq<int>,
    last: int,
)
    requires
        ready(state),
        0 <= r <= buf.len(),
        r <= state.max,
        returned.len() > 0,
        forall|i: int| 0 <= i < returned.len() ==> #[trigger] returned[i] > 0,
        last <= 0,
    ensures
        ({
            let steps = opening(r, err, buf) + reads(returned.push(last));
            &&& state.allows_run(steps)
            &&& state.messages(steps) == Seq::<Notice>::empty()
            &&& state.run(steps) == round_over(state, buf.take(r))
        }),
{
    lemma_opening(state, r, err, buf);
    let middle = state.run(opening(r, err, buf));
    lemma_reads(middle, returned);
    let all = reads::<E>(returned.push(last));
    assert(all.drop_last() =~= reads(returned));
    assert(all.last() == Step::<E>::Drained { n: last });
    lemma_concat(state, opening(r, err, buf), all);
    assert(state.messages(opening(r, err, buf)) + middle.messages(all) =~= Seq::empty());
}

/// What the beginning of an undisturbed round does.
proof fn lemma_opening<E>(state: State<E>, r: int, err: c_int, buf: Seq<E>)
    requires
        ready(state),
        0 <= r <= buf.len(),
        r <= state.max,
    ensures
        state.allows_run(opening(r, err, buf)),
        state.run(opening(r, err, buf)) == (State {
            phase: Phase::Draining,
            ..round_over(state, buf.take(r))
        }),
        state.messages(opening(r, err, buf)) == Seq::<Notice>::empty(),
{
    let s3 = opening(r, err, buf);
    let s2 = s3.drop_last();
    let s1 = s2.drop_last();
    assert(s1.drop_last() =~= Seq::empty());
    reveal_with_fuel(State::run, 4);
    reveal_with_fuel(State::allows_run, 4);
    reveal_with_fuel(State::messages, 4);
    assert(s3.last() == Step::Polled { r, err, buf });
    assert(s2.last() == Step::<E>::Start);
    assert(s1.last() == Step::<E>::Acquire);
    assert(state.run(s1) == state.acquired());
    assert(state.run(s2) == state.acquired().started());
}

/// What reads that find something in the abort pipe do.
proof fn lemma_reads<E>(state: State<E>, returned: Seq<int>)
    requires
        state.draining(),
        forall|i: int| 0 <= i < returned.len() ==> #[trigger] returned[i] > 0,
    ensures
        state.allows_run(reads(returned)),
        state.run(reads(returned)) == (if returned.len() == 0 {
            state
        } else {
            State { phase: Phase::Discarding, ..state }
        }),
        state.messages(reads(returned)) == Seq::<Notice>::empty(),
    decreases returned.len(),
{
    if returned.len() > 0 {
        lemma_reads(state, returned.drop_last());
        assert(reads::<E>(returned).drop_last() =~= reads(returned.drop_last()));
        assert(reads::<E>(returned).last() == Step::<E>::Drained { n: returned.last() });
        assert(returned[returned.len() - 1] > 0);
    }
}

/// A round that the kernel could not wait in stores nothing, and its message says why.
pub proof fn a_failed_round_stores_nothing<E>(state: State<E>, err: c_int, buf: Seq<E>)
    requires
        state.wf(),
        state.phase is Starting,
        state.readers == 0,
    ensures
        state.started().allows(Step::Polled { r: -1, err, buf }),
        state.started().message(Step::Polled { r: -1, err, buf }) == Some::<Notice>(
            Err(crate::monitor::poll_error(err)),
        ),
        state.started().polled(-1, buf).events == Seq::<E>::empty(),
        state.started().polled(-1, buf).phase is Parked,
{
}

/// Once the set is dropped, the worker leaves when it next comes to the semaphore. It never
/// blocks there, and nothing that happens in between keeps it from leaving.
pub proof fn a_dropped_set_lets_its_worker_leave<E>(state: State<E>, steps: Seq<Step<E>>)
    requires
        state.wf(),
        state.stop,
        state.allows_run(steps),
    ensures
        state.run(steps).stop,
        state.run(steps).wf(),
        state.run(steps).phase is Parked ==> {
            &&& state.run(steps).wakeup() is Exit
            &&& state.run(steps).acquired().phase is Exited
        },
    decreases steps.len(),
{
    if steps.len() > 0 {
        a_dropped_set_lets_its_worker_leave(state, steps.drop_last());
    }
}

/// A worker that has left never comes back.
pub proof fn a_worker_that_left_stays_away<E>(state: State<E>, steps: Seq<Step<E>>)
    requires
        state.phase is Exited,
        state.allows_run(steps),
    ensures
        state.run(steps).phase is Exited,
        state.run(steps).events == state.events,
    decreases steps.len(),
{
    if steps.len() > 0 {
        a_worker_that_left_stays_away(state, steps.drop_last());
    }
}

/// A poll set together with what its abort descriptor holds: the counter of the eventfd, or the
/// bytes in the pipe.
pub struct World<E> {
    pub state: State<E>,
    pub pending: nat,
}

impl<E> World<E> {
    /// The step may be made, and a read of the abort descriptor returns what such a descriptor
    /// gives: something if it holds something, and never more than that from a pipe.
    pub open spec fn allows(self, step: Step<E>) -> bool {
        &&& self.state.allows(step)
        &&& match step {
            Step::DrainedOnce { n } => n > 0 <==> self.pending > 0,
            Step::Drained { n } => if self.pending > 0 {
                0 < n <= self.pending
            } else {
                n <= 0
            },
            _ => true,
        }
    }

    /// The world after the step. An abort that is written adds one to the abort descriptor. One
    /// read takes the whole counter of an eventfd, and from a pipe as many bytes as it returns.
    pub open spec fn after(self, step: Step<E>) -> Self {
        World {
            state: self.state.after(step),
            pending: match step {
                Step::Abort { written } => if written {
                    self.pending + 1
                } else {
                    self.pending
                },
                Step::DrainedOnce { n } => 0,
                Step::Drained { n } => if n > 0 {
                    (self.pending - n) as nat
                } else {
                    self.pending
                },
                _ => self.pending,
            },
        }
    }

    /// The world after a run.
    pub open spec fn run(self, steps: Seq<Step<E>>) -> Self
        decreases steps.len(),
    {
        if steps.len() == 0 {
            self
        } else {
            self.run(steps.drop_last()).after(steps.last())
        }
    }

    /// Each step of the run may be made when its turn comes.
    pub open spec fn allows_run(self, steps: Seq<Step<E>>) -> bool
        decreases steps.len(),
    {
        steps.len() > 0 ==> {
            &&& self.allows_run(steps.drop_last())
            &&& self.run(steps.drop_last()).allows(steps.last())
        }
    }
}

/// All aborts of a wait are used up by it, however many there were: when the worker is back at
/// the semaphore and no wait is running, nothing is left in the abort descriptor. This leaves
/// out runs in which the kernel fails to wait, for then the worker doesn't look into it.
pub proof fn aborts_are_used_up_by_their_wait<E>(max: nat, steps: Seq<Step<E>>)
    requires
        (World { state: State::<E>::initial(max), pending: 0 }).allows_run(steps),
        forall|i: int|
            0 <= i < steps.len() ==> !(#[trigger] steps[i] matches Step::Polled { r, err, buf }
                && r == -1),
    ensures
        ({
            let start = World { state: State::<E>::initial(max), pending: 0 };
            let end = start.run(steps);
            &&& end.state == start.state.run(steps)
            &&& start.state.allows_run(steps)
            &&& end.pending > 0 ==> end.state.running() || end.state.locked()
                || end.state.phase is Exited
        }),
    decreases steps.len(),
{
    if steps.len() > 0 {
        let front = steps.drop_last();
        assert forall|i: int| 0 <= i < front.len() implies !(
        #[trigger] front[i] matches Step::Polled { r, err, buf } && r == -1) by {
            assert(front[i] == steps[i]);
        }
        aborts_are_used_up_by_their_wait::<E>(max, front);
        assert(!(steps[steps.len() - 1] matches Step::Polled { r, err, buf } && r == -1));
    }
}

/// When a round ends with a read of the abort descriptor, nothing is left in it, whether or not
/// the next wait has already been accepted.
pub proof fn a_drained_round_leaves_nothing_behind<E>(world: World<E>, step: Step<E>)
    requires
        world.allows(step),
        step is DrainedOnce || step is Drained,
        world.after(step).state.phase is Parked,
    ensures
        world.after(step).pending == 0,
{
}

/// An abort that is accepted and written reaches its wait: whatever happens until the worker
/// next reads the abort descriptor, that read finds it, so that the round sends no message, and
/// neither do the further reads by which the round ends on `kqueue`. Nor is a message sent
/// before that read, unless the kernel fails to wait.
pub proof fn an_accepted_abort_silences_its_wait<E>(
    world: World<E>,
    steps: Seq<Step<E>>,
    read: Step<E>,
)
    requires
        world.allows(Step::Abort { written: true }),
        world.after(Step::Abort { written: true }).allows_run(steps),
        forall|i: int|
            0 <= i < steps.len() ==> !(#[trigger] steps[i] is DrainedOnce) && !(
            steps[i] is Drained),
        read is DrainedOnce || read is Drained,
        world.after(Step::Abort { written: true }).run(steps).allows(read),
    ensures
        ({
            let before = world.after(Step::Abort { written: true }).run(steps);
            let after = before.after(read).state;
            &&& before.pending > 0
            &&& before.state == world.state.run(steps)
            &&& before.state.message(read) is None
            &&& (forall|i: int|
                0 <= i < steps.len() ==> !(#[trigger] steps[i] matches Step::Polled { r, err, buf }
                    && r == -1)) ==> world.state.messages(steps) == Seq::<Notice>::empty()
            &&& read is DrainedOnce ==> after.phase is Parked
            &&& read is Drained ==> after.phase is Discarding
            &&& forall|n: int| after.phase is Discarding ==> (#[trigger] after.message(
                Step::Drained { n },
            )) is None
        }),
{
    lemma_abort_stays(world, steps);
}

/// What an abort has written stays in the abort descriptor until it is read.
proof fn lemma_abort_stays<E>(world: World<E>, steps: Seq<Step<E>>)
    requires
        world.after(Step::Abort { written: true }).allows_run(steps),
        forall|i: int|
            0 <= i < steps.len() ==> !(#[trigger] steps[i] is DrainedOnce) && !(
            steps[i] is Drained),
    ensures
        world.after(Step::Abort { written: true }).run(steps).pending > 0,
        world.after(Step::Abort { written: true }).run(steps).state == world.state.run(steps),
        (forall|i: int|
            0 <= i < steps.len() ==> !(#[trigger] steps[i] matches Step::Polled { r, err, buf }
                && r == -1)) ==> world.state.messages(steps) == Seq::<Notice>::empty(),
    decreases steps.len(),
{
    if steps.len() > 0 {
        let front = steps.drop_last();
        assert forall|i: int| 0 <= i < front.len() implies !(
        #[trigger] front[i] is DrainedOnce) && !(front[i] is Drained) by {
            assert(front[i] == steps[i]);
        }
        lemma_abort_stays(world, front);
        assert(!(steps[steps.len() - 1] is DrainedOnce));
        if forall|i: int|
            0 <= i < steps.len() ==> !(#[trigger] steps[i] matches Step::Polled { r, err, buf }
                && r == -1) {
            assert forall|i: int| 0 <= i < front.len() implies !(
            #[trigger] front[i] matches Step::Polled { r, err, buf } && r == -1) by {
                assert(front[i] == steps[i]);
            }
            assert(!(steps[steps.len() - 1] matches Step::Polled { r, err, buf } && r == -1));
        }
    }
}

/// A wait that starts with nothing left in the abort descriptor, and is not aborted itself, is
/// not cut short: its round sends `Ok(())`.
pub proof fn a_wait_is_not_disturbed_by_earlier_aborts<E>(
    world: World<E>,
    r: int,
    err: c_int,
    buf: Seq<E>,
    n: int,
    once: bool,
)
    requires
        world.pending == 0,
        ready(world.state),
        0 <= r <= buf.len(),
        r <= world.state.max,
        world.run(opening(r, err, buf)).allows(
            if once {
                Step::DrainedOnce { n }
            } else {
                Step::Drained { n }
            },
        ),
    ensures
        ({
            let steps = opening(r, err, buf).push(
                if once {
                    Step::DrainedOnce { n }
                } else {
                    Step::Drained { n }
                },
            );
            &&& world.state.messages(steps) == seq![Ok::<(), Error>(())]
            &&& world.run(steps) == (World {
                state: round_over(world.state, buf.take(r)),
                pending: 0,
            })
        }),
{
    let s3 = opening(r, err, buf);
    let s2 = s3.drop_last();
    let s1 = s2.drop_last();
    assert(s1.drop_last() =~= Seq::empty());
    reveal_with_fuel(World::run, 4);
    assert(s3.last() == Step::Polled { r, err, buf });
    assert(s2.last() == Step::<E>::Start);
    assert(s1.last() == Step::<E>::Acquire);
    assert(world.run(s3).pending == 0);
    a_round_stores_what_the_kernel_found(world.state, r, err, buf, n, once);
    let last = if once {
        Step::<E>::DrainedOnce { n }
    } else {
        Step::Drained { n }
    };
    assert(s3.push(last).drop_last() =~= s3);
    lemma_opening(world.state, r, err, buf);
    reveal_with_fuel(State::run, 4);
    assert(world.run(s3).state == world.state.run(s3));
}

impl<E> State<E> {
    /// How many requests for the events the run accepts.
    pub open spec fn reads_accepted(self, steps: Seq<Step<E>>) -> nat
        decreases steps.len(),
    {
        if steps.len() == 0 {
            0
        } else {
            let before = self.run(steps.drop_last());
            self.reads_accepted(steps.drop_last()) + if steps.last() is Read && !before.running() {
                1nat
            } else {
                0nat
            }
        }
    }

    /// How many [`crate::monitor::Events`] are handed back in the run.
    pub open spec fn releases(steps: Seq<Step<E>>) -> nat
        decreases steps.len(),
    {
        if steps.len() == 0 {
            0
        } else {
            State::releases(steps.drop_last()) + if steps.last() is Release {
                1nat
            } else {
                0nat
            }
        }
    }

    /// How many times the kernel has answered in the run.
    pub open spec fn answers(steps: Seq<Step<E>>) -> nat
        decreases steps.len(),
    {
        if steps.len() == 0 {
            0
        } else {
            State::answers(steps.drop_last()) + if steps.last() is Polled {
                1nat
            } else {
                0nat
            }
        }
    }

    /// How many waits are asked for in the run while the kernel owes no answer to an earlier one.
    pub open spec fn waits_begun(steps: Seq<Step<E>>) -> nat
        decreases steps.len(),
    {
        if steps.len() == 0 {
            0
        } else {
            let front = steps.drop_last();
            State::waits_begun(front) + if steps.last() is Wait && State::waits_begun(front)
                <= State::answers(front) {
                1nat
            } else {
                0nat
            }
        }
    }

    /// How many aborts of the run have reached the abort descriptor.
    pub open spec fn aborts_written(steps: Seq<Step<E>>) -> nat
        decreases steps.len(),
    {
        if steps.len() == 0 {
            0
        } else {
            State::aborts_written(steps.drop_last()) + match steps.last() {
                Step::Abort { written } => if written {
                    1nat
                } else {
                    0nat
                },
                _ => 0nat,
            }
        }
    }
}

/// In every run, the number of [`crate::monitor::Events`] in use is the number of those that were
/// handed out less the number of those that were handed back, whatever they hold and whatever
/// else happens.
pub proof fn readers_are_those_handed_out_and_not_back<E>(max: nat, steps: Seq<Step<E>>)
    requires
        State::<E>::initial(max).allows_run(steps),
    ensures
        ({
            let start = State::<E>::initial(max);
            start.run(steps).readers + State::<E>::releases(steps) == start.reads_accepted(steps)
        }),
    decreases steps.len(),
{
    if steps.len() > 0 {
        readers_are_those_handed_out_and_not_back::<E>(max, steps.drop_last());
    }
}

/// Handing out the events and handing them back leaves no trace: the state is the same as before,
/// whatever is stored in it.
pub proof fn a_release_undoes_its_read<E>(state: State<E>)
    requires
        !state.running(),
    ensures
        state.read().readers == state.readers + 1,
        state.read().released() == state,
        state.read().read().released() == state.read(),
{
}

/// Once all [`crate::monitor::Events`] that were handed out in a run have been handed back, a
/// worker that has taken a permit can start to wait, whatever events are stored.
pub proof fn the_worker_starts_when_all_is_handed_back<E>(max: nat, steps: Seq<Step<E>>)
    requires
        State::<E>::initial(max).allows_run(steps),
        State::<E>::initial(max).run(steps).phase is Starting,
    ensures
        ({
            let start = State::<E>::initial(max);
            let end = start.run(steps);
            &&& end.allows(Step::Start)
            &&& end.after(Step::Start).phase is Polling <==> start.reads_accepted(steps)
                == State::<E>::releases(steps)
            &&& !(end.after(Step::Start).phase is Polling) ==> end.after(Step::Start) == end
        }),
{
    readers_are_those_handed_out_and_not_back::<E>(max, steps);
}

/// In every run without a drop, a wait is running exactly if the kernel owes it an answer, and a
/// wait is accepted exactly if none is owed. This depends on nothing but the order of the waits
/// and the answers: not on what is stored, read or aborted.
pub proof fn a_wait_is_running_while_an_answer_is_owed<E>(max: nat, steps: Seq<Step<E>>)
    requires
        State::<E>::initial(max).allows_run(steps),
        forall|i: int| 0 <= i < steps.len() ==> !(#[trigger] steps[i] is Stop),
    ensures
        ({
            let start = State::<E>::initial(max);
            let end = start.run(steps);
            &&& end.running() <==> State::<E>::waits_begun(steps) > State::<E>::answers(steps)
            &&& State::<E>::waits_begun(steps) <= State::<E>::answers(steps) + 1
            &&& start.accepted(steps) == State::<E>::waits_begun(steps)
            &&& end.permits + (if end.phase is Starting || end.phase is Polling {
                1nat
            } else {
                0nat
            }) + State::<E>::answers(steps) == State::<E>::waits_begun(steps)
            &&& !end.stop && !(end.phase is Exited)
        }),
    decreases steps.len(),
{
    if steps.len() > 0 {
        let front = steps.drop_last();
        assert forall|i: int| 0 <= i < front.len() implies !(#[trigger] front[i] is Stop) by {
            assert(front[i] == steps[i]);
        }
        a_wait_is_running_while_an_answer_is_owed::<E>(max, front);
        reachable_states_are_well_formed::<E>(max, front);
        assert(!(steps[steps.len() - 1] is Stop));
    }
}

/// In every run without a drop, `wait` and `events` are refused exactly while the kernel owes an
/// answer, and otherwise `events` hands out just what the kernel wrote in its last answer: nothing
/// if that was a failure or if there has been none.
pub proof fn what_is_handed_out_is_what_the_kernel_wrote<E>(max: nat, steps: Seq<Step<E>>)
    requires
        State::<E>::initial(max).allows_run(steps),
        forall|i: int| 0 <= i < steps.len() ==> !(#[trigger] steps[i] is Stop),
    ensures
        ({
            let end = State::<E>::initial(max).run(steps);
            if State::<E>::waits_begun(steps) > State::<E>::answers(steps) {
                &&& end.wait_answer() is Err
                &&& end.events_answer() is Err
            } else {
                &&& end.wait_answer() is Ok
                &&& end.events_answer() == Ok::<Seq<E>, ()>(
                    match State::last_polled(steps) {
                        Some((r, buf)) => if r == -1 {
                            Seq::empty()
                        } else {
                            buf.take(r)
                        },
                        None => Seq::empty(),
                    },
                )
            }
        }),
{
    a_wait_is_running_while_an_answer_is_owed::<E>(max, steps);
    stored_events_are_those_of_the_last_wait::<E>(max, steps);
}

/// A request is refused exactly if it changes nothing.
pub proof fn an_accepted_request_takes_effect<E>(state: State<E>)
    ensures
        state.wait_answer() is Ok <==> state.waited().permits == state.permits + 1,
        state.wait_answer() is Err <==> state.waited() == state,
        state.events_answer() is Ok <==> state.read().readers == state.readers + 1,
        state.events_answer() is Err <==> state.read() == state,
        state.events_answer() matches Ok(events) ==> events == state.events,
{
}

/// In every run, the worker is told to leave exactly once the set has been dropped, and each drop
/// wakes it once. The set keeps the number of events that it was made for.
pub proof fn only_a_drop_tells_the_worker_to_leave<E>(max: nat, steps: Seq<Step<E>>)
    requires
        State::<E>::initial(max).allows_run(steps),
    ensures
        State::<E>::initial(max).run(steps).stop <==> State::<E>::initial(max).stops(steps) > 0,
        State::<E>::initial(max).run(steps).phase is Exited ==> State::<E>::initial(max).stops(
            steps,
        ) > 0,
        State::<E>::initial(max).run(steps).max == max,
    decreases steps.len(),
{
    if steps.len() > 0 {
        only_a_drop_tells_the_worker_to_leave::<E>(max, steps.drop_last());
    }
}

/// What the user's side does never moves the worker nor touches what is stored: each of its steps
/// changes the one number that it is about, by one at most.
pub proof fn the_users_side_never_moves_the_worker<E>(state: State<E>, step: Step<E>)
    requires
        state.allows(step),
        step is Wait || step is Read || step is Release || step is Stop || step is Abort,
    ensures
        ({
            let after = state.after(step);
            &&& after.phase == state.phase
            &&& after.events == state.events
            &&& after.max == state.max
            &&& !(step is Stop) ==> after.stop == state.stop
            &&& !(step is Wait || step is Stop) ==> after.permits == state.permits
            &&& !(step is Read || step is Release) ==> after.readers == state.readers
            &&& step is Abort ==> after == state
            &&& step is Stop ==> after.stop && after.permits == state.permits + 1
            &&& step is Release ==> after.readers + 1 == state.readers
            &&& step is Wait ==> after.permits == if state.running() {
                state.permits
            } else {
                state.permits + 1
            }
            &&& step is Read ==> after.readers == if state.running() {
                state.readers
            } else {
                state.readers + 1
            }
            &&& state.message(step) is None
        }),
{
}

/// What the worker does never touches the user's side: neither who reads the events, nor whether
/// the set is being dropped, nor how many events it was made for. It takes permits only at the
/// semaphore, and changes what is stored only when it starts to wait and when the kernel answers.
pub proof fn the_worker_never_touches_the_users_side<E>(state: State<E>, step: Step<E>)
    requires
        state.allows(step),
        step is Acquire || step is Start || step is Polled || step is DrainedOnce
            || step is Drained,
    ensures
        ({
            let after = state.after(step);
            &&& after.readers == state.readers
            &&& after.stop == state.stop
            &&& after.max == state.max
            &&& !(step is Acquire) ==> after.permits == state.permits
            &&& !(step is Start || step is Polled) ==> after.events == state.events
        }),
{
}

/// The worker goes round in order, and never gets stuck. At the semaphore it takes one permit,
/// exactly if there is one, and then leaves if the set is being dropped and starts otherwise; it
/// waits once nobody reads the events; it goes back to the semaphore if the kernel failed and
/// otherwise looks into the abort descriptor, until that holds nothing.
pub proof fn the_worker_goes_round_in_order<E>(state: State<E>, step: Step<E>)
    requires
        state.allows(step),
    ensures
        ({
            let after = state.after(step);
            match step {
                Step::Acquire => {
                    &&& after.permits + (if after.phase is Parked {
                        0nat
                    } else {
                        1nat
                    }) == state.permits
                    &&& after.phase is Parked <==> state.permits == 0
                    &&& after.phase is Exited <==> state.permits > 0 && state.stop
                    &&& after.phase is Starting <==> state.permits > 0 && !state.stop
                    &&& state.wakeup() is Blocked <==> after.phase is Parked
                    &&& state.wakeup() is Exit <==> after.phase is Exited
                    &&& state.wakeup() is Run <==> after.phase is Starting
                },
                Step::Start => {
                    &&& after.phase is Polling <==> state.readers == 0
                    &&& after.phase is Starting <==> state.readers > 0
                    &&& after.events == if state.readers == 0 {
                        Seq::<E>::empty()
                    } else {
                        state.events
                    }
                },
                Step::Polled { r, err, buf } => {
                    &&& after.phase is Parked <==> r == -1
                    &&& after.phase is Draining <==> r != -1
                    &&& r == -1 ==> after.events == state.events
                    &&& r != -1 ==> after.events.len() == r && after.events.is_prefix_of(buf)
                },
                Step::DrainedOnce { n } => after.phase is Parked,
                Step::Drained { n } => {
                    &&& after.phase is Discarding <==> n > 0
                    &&& after.phase is Parked <==> n <= 0
                },
                _ => after.phase == state.phase,
            }
        }),
{
}

/// The stored events are the user's to read exactly while the worker isn't between taking them
/// for itself and the end of its round, and then nothing keeps the user from reading them but a
/// wait that is running.
pub proof fn events_can_be_read_outside_the_wait<E>(state: State<E>)
    ensures
        state.locked() <==> !(state.phase is Parked || state.phase is Starting
            || state.phase is Exited),
        state.draining() <==> state.phase is Draining || state.phase is Discarding,
        state.locked() <==> state.draining() || state.phase is Polling,
        state.allows(Step::Read) <==> state.running() || !state.locked(),
        state.running() <==> state.permits > 0 || state.phase is Starting
            || state.phase is Polling,
{
}

/// What is stored decides nothing but itself: two states that differ in their events and in how
/// many a set was made for allow the same requests, answer them alike and stay alike in all else.
pub proof fn stored_events_decide_nothing<E>(state: State<E>, other: State<E>, step: Step<E>)
    requires
        other == (State { events: other.events, max: other.max, ..state }),
        state.allows(step),
        other.allows(step),
    ensures
        state.running() == other.running(),
        state.locked() == other.locked(),
        state.draining() == other.draining(),
        state.wakeup() == other.wakeup(),
        state.message(step) == other.message(step),
        ({
            let first = state.after(step);
            let second = other.after(step);
            second == (State { events: second.events, max: second.max, ..first })
        }),
{
}

/// Whatever has happened, the first read of the abort descriptor in a round that finds nothing
/// there has the worker send `Ok(())`, and one that finds something has it send nothing, no matter
/// how many waits have been accepted meanwhile or whether the set is being dropped.
pub proof fn a_round_is_announced_unless_aborted<E>(world: World<E>, step: Step<E>)
    requires
        world.state.phase is Draining,
        world.allows(step),
        step is DrainedOnce || step is Drained,
    ensures
        world.state.message(step) == if world.pending == 0 {
            Some::<Notice>(Ok(()))
        } else {
            None::<Notice>
        },
        world.after(step).state.phase is Parked <==> world.pending == 0 || step is DrainedOnce,
        world.state.running() == world.after(step).state.running(),
{
}

/// In every run in which no abort reaches the abort descriptor, every round that ends does so with
/// a message: none is lost, whatever the order of the steps.
pub proof fn without_aborts_every_round_is_announced<E>(max: nat, steps: Seq<Step<E>>)
    requires
        (World { state: State::<E>::initial(max), pending: 0 }).allows_run(steps),
        State::<E>::aborts_written(steps) == 0,
    ensures
        ({
            let start = World { state: State::<E>::initial(max), pending: 0 };
            &&& start.run(steps).pending == 0
            &&& start.run(steps).state == start.state.run(steps)
            &&& start.state.allows_run(steps)
            &&& !(start.run(steps).state.phase is Discarding)
            &&& start.state.silent(steps) == 0
        }),
    decreases steps.len(),
{
    if steps.len() > 0 {
        without_aborts_every_round_is_announced::<E>(max, steps.drop_last());
    }
}

/// In every run, the worker sends no more messages than the kernel has given answers, and a round
/// is silent only if an abort was written: there are no more silent rounds than aborts.
pub proof fn messages_and_aborts_account_for_the_answers<E>(max: nat, steps: Seq<Step<E>>)
    requires
        (World { state: State::<E>::initial(max), pending: 0 }).allows_run(steps),
    ensures
        ({
            let start = World { state: State::<E>::initial(max), pending: 0 };
            let end = start.run(steps);
            &&& end.state == start.state.run(steps)
            &&& start.state.messages(steps).len() + start.state.silent(steps) + (
            if end.state.draining() {
                1nat
            } else {
                0nat
            }) == State::<E>::answers(steps)
            &&& start.state.silent(steps) + end.pending + (if end.state.phase is Discarding {
                1nat
            } else {
                0nat
            }) <= State::<E>::aborts_written(steps)
        }),
    decreases steps.len(),
{
    if steps.len() > 0 {
        messages_and_aborts_account_for_the_answers::<E>(max, steps.drop_last());
    }
}

/// Once the kernel has answered a wait, no abort can be meant for it any more: until the worker
/// has read the abort descriptor, none is allowed, even if the next wait has been accepted.
pub proof fn an_answered_wait_cannot_be_aborted<E>(
    state: State<E>,
    r: int,
    err: c_int,
    buf: Seq<E>,
    steps: Seq<Step<E>>,
    written: bool,
)
    requires
        state.allows(Step::Polled { r, err, buf }),
        r != -1,
        state.polled(r, buf).allows_run(steps),
        forall|i: int|
            0 <= i < steps.len() ==> !(#[trigger] steps[i] is DrainedOnce) && !(
            steps[i] is Drained),
    ensures
        state.polled(r, buf).run(steps).phase is Draining,
        !state.polled(r, buf).run(steps).allows(Step::Abort { written }),
        state.polled(r, buf).run(steps).events == buf.take(r),
    decreases steps.len(),
{
    if steps.len() > 0 {
        let front = steps.drop_last();
        assert forall|i: int| 0 <= i < front.len() implies !(
        #[trigger] front[i] is DrainedOnce) && !(front[i] is Drained) by {
            assert(front[i] == steps[i]);
        }
        an_answered_wait_cannot_be_aborted(state, r, err, buf, front, written);
        assert(!(steps[steps.len() - 1] is DrainedOnce));
    }
}

/// A fresh set is idle: nothing is stored or read, no wait is running, its worker is at the
/// semaphore and finds nothing there, and both a wait and a request for the events are accepted.
pub proof fn a_fresh_set_is_idle<E>(max: nat)
    ensures
        ({
            let fresh = State::<E>::initial(max);
            &&& fresh.events.len() == 0
            &&& fresh.readers == 0
            &&& fresh.permits == 0
            &&& fresh.max == max
            &&& fresh.phase is Parked
            &&& !fresh.stop
            &&& fresh.after(Step::Acquire) == fresh
            &&& fresh.after(Step::Wait).running()
            &&& fresh.after(Step::Read).readers == 1
            &&& fresh.wf()
        }),
{
}

} // verus!

//! Graceful shutdown: serving, then draining for a bounded time, then
//! terminated.

use vstd::prelude::*;

verus! {

/// How long requests in flight may still run once a termination signal has
/// come, in milliseconds.
pub const GRACE_PERIOD_MS: u64 = 10000;

/// Where the process stands.
#[derive(Clone, Copy, Debug, PartialEq, Eq, Structural)]
pub enum Phase {
    /// Requests are accepted.
    Serving,
    /// No request is accepted any more; those in flight may finish until
    /// the deadline (milliseconds on the caller's clock).
    Draining { deadline_ms: u64 },
    /// Nothing is served; the process exits.
    Terminated,
}

/// What happens to the coordinator.
#[derive(Clone, Copy, Debug, PartialEq, Eq, Structural)]
pub enum Event {
    /// An interrupt or a termination signal arrived.
    Signal,
    /// A new request arrived.
    RequestArrived,
    /// A request in flight was answered.
    RequestFinished,
    /// Time has passed.
    Tick,
}

/// What the caller has to do after an event.
#[derive(Clone, Copy, Debug, PartialEq, Eq, Structural)]
pub enum Action {
    /// Go on as before.
    Continue,
    /// Hand the request that arrived to its handler.
    Accept,
    /// Turn the request that arrived away.
    Refuse,
    /// Stop listening, and come back at the deadline at the latest.
    Drain { deadline_ms: u64 },
    /// Exit, giving up the requests that are still in flight.
    Exit { abandoned: u64 },
}

/// The shutdown coordinator: the phase and the number of requests in flight.
#[derive(Clone, Copy, Debug, PartialEq, Eq, Structural)]
pub struct Coordinator {
    pub phase: Phase,
    pub in_flight: u64,
}

/// The deadline of a drain that starts at `now_ms`: one grace period later,
/// or the end of the clock where that comes first.
pub open spec fn deadline_from(now_ms: u64) -> u64 {
    if now_ms + GRACE_PERIOD_MS > u64::MAX {
        u64::MAX
    } else {
        (now_ms + GRACE_PERIOD_MS) as u64
    }
}

impl Coordinator {
    /// The coordinator after `event` at time `now_ms`, and what the caller
    /// has to do.
    ///
    /// While serving, a signal starts the drain and fixes its deadline;
    /// arrivals are accepted and counted. While draining, nothing is
    /// accepted and the deadline stays; the drain ends when the deadline has
    /// come, with the requests still in flight abandoned, or before it as
    /// soon as none is in flight. Once terminated, nothing changes any more.
    pub open spec fn next(self, event: Event, now_ms: u64) -> (Coordinator, Action) {
        match self.phase {
            Phase::Serving => match event {
                Event::Signal => (
                    Coordinator {
                        phase: Phase::Draining { deadline_ms: deadline_from(now_ms) },
                        in_flight: self.in_flight,
                    },
                    Action::Drain { deadline_ms: deadline_from(now_ms) },
                ),
                Event::RequestArrived => if self.in_flight < u64::MAX {
                    (
                        Coordinator {
                            phase: Phase::Serving,
                            in_flight: (self.in_flight + 1) as u64,
                        },
                        Action::Accept,
                    )
                } else {
                    (self, Action::Refuse)
                },
                Event::RequestFinished => (
                    Coordinator { phase: Phase::Serving, in_flight: self.after_finish() },
                    Action::Continue,
                ),
                Event::Tick => (self, Action::Continue),
            },
            Phase::Draining { deadline_ms } => {
                let left = if event == Event::RequestFinished {
                    self.after_finish()
                } else {
                    self.in_flight
                };
                if now_ms >= deadline_ms || left == 0 {
                    (
                        Coordinator { phase: Phase::Terminated, in_flight: 0 },
                        Action::Exit { abandoned: left },
                    )
                } else if event == Event::RequestArrived {
                    (self, Action::Refuse)
                } else {
                    (
                        Coordinator { phase: Phase::Draining { deadline_ms }, in_flight: left },
                        Action::Continue,
                    )
                }
            },
            Phase::Terminated => if event == Event::RequestArrived {
                (self, Action::Refuse)
            } else {
                (self, Action::Continue)
            },
        }
    }

    /// The number in flight once one of them has finished.
    pub open spec fn after_finish(self) -> u64 {
        if self.in_flight > 0 {
            (self.in_flight - 1) as u64
        } else {
            0
        }
    }

    /// The coordinator of a process that has just bound its listener.
    pub fn new() -> (c: Coordinator)
        ensures
            c.phase == Phase::Serving,
            c.in_flight == 0,
    {
        Coordinator { phase: Phase::Serving, in_flight: 0 }
    }

    /// Whether a request that arrives now would be accepted.
    pub fn is_accepting(&self) -> (yes: bool)
        ensures
            yes == (self.phase == Phase::Serving && self.in_flight < u64::MAX),
    {
        match self.phase {
            Phase::Serving => self.in_flight < u64::MAX,
            _ => false,
        }
    }

    /// Takes one event at time `now_ms` and says what to do.
    pub fn step(&mut self, event: Event, now_ms: u64) -> (action: Action)
        ensures
            (*final(self), action) == old(self).next(event, now_ms),
    {
        let finished = match event {
            Event::RequestFinished => true,
            _ => false,
        };
        let arrived = match event {
            Event::RequestArrived => true,
            _ => false,
        };
        let left = if finished && self.in_flight > 0 {
            self.in_flight - 1
        } else {
            self.in_flight
        };
        match self.phase {
            Phase::Serving => match event {
                Event::Signal => {
                    let deadline_ms = if now_ms > u64::MAX - GRACE_PERIOD_MS {
                        u64::MAX
                    } else {
                        now_ms + GRACE_PERIOD_MS
                    };
                    self.phase = Phase::Draining { deadline_ms };
                    Action::Drain { deadline_ms }
                },
                Event::RequestArrived => {
                    if self.in_flight < u64::MAX {
                        self.in_flight = self.in_flight + 1;
                        Action::Accept
                    } else {
                        Action::Refuse
                    }
                },
                Event::RequestFinished => {
                    self.in_flight = left;
                    Action::Continue
                },
                Event::Tick => Action::Continue,
            },
            Phase::Draining { deadline_ms } => {
                if now_ms >= deadline_ms || left == 0 {
                    self.phase = Phase::Terminated;
                    self.in_flight = 0;
                    Action::Exit { abandoned: left }
                } else if arrived {
                    Action::Refuse
                } else {
                    self.in_flight = left;
                    Action::Continue
                }
            },
            Phase::Terminated => {
                if arrived {
                    Action::Refuse
                } else {
                    Action::Continue
                }
            },
        }
    }
}

/// After a termination signal no request is accepted: once the coordinator
/// has left the serving phase, no event is answered with `Accept`, the
/// number in flight never grows, and the serving phase is never entered
/// again.
pub proof fn lemma_no_accept_after_signal(c: Coordinator, event: Event, now_ms: u64)
    requires
        c.phase != Phase::Serving,
    ensures
        c.next(event, now_ms).1 != Action::Accept,
        c.next(event, now_ms).0.phase != Phase::Serving,
        c.next(event, now_ms).0.in_flight <= c.in_flight,
{
}

/// A signal ends the serving phase at once, whatever is in flight.
pub proof fn lemma_signal_starts_drain(c: Coordinator, now_ms: u64)
    requires
        c.phase == Phase::Serving,
    ensures
        c.next(Event::Signal, now_ms).0.phase == (Phase::Draining {
            deadline_ms: deadline_from(now_ms),
        }),
        c.next(Event::Signal, now_ms).0.in_flight == c.in_flight,
        now_ms + GRACE_PERIOD_MS <= u64::MAX ==> deadline_from(now_ms) == now_ms + 10000,
{
}

/// The deadline of a drain is fixed when the drain starts: no event, and in
/// particular no second signal, moves it. A signal before the deadline
/// changes nothing at all while requests are in flight.
pub proof fn lemma_deadline_stays(c: Coordinator, deadline_ms: u64, event: Event, now_ms: u64)
    requires
        c.phase == (Phase::Draining { deadline_ms }),
    ensures
        c.next(event, now_ms).0.phase == (Phase::Draining { deadline_ms }) || c.next(
            event,
            now_ms,
        ).0.phase == Phase::Terminated,
        event == Event::Signal && now_ms < deadline_ms && c.in_flight > 0 ==> c.next(
            event,
            now_ms,
        ) == (c, Action::Continue),
{
}

/// A request in flight that finishes before the deadline is taken out of
/// flight and not given up: the drain goes on with one fewer, or ends with
/// nothing abandoned if it was the last.
pub proof fn lemma_finish_within_grace(c: Coordinator, deadline_ms: u64, now_ms: u64)
    requires
        c.phase == (Phase::Draining { deadline_ms }),
        now_ms < deadline_ms,
        c.in_flight > 0,
    ensures
        c.in_flight > 1 ==> c.next(Event::RequestFinished, now_ms) == (
            Coordinator { phase: c.phase, in_flight: (c.in_flight - 1) as u64 },
            Action::Continue,
        ),
        c.in_flight == 1 ==> c.next(Event::RequestFinished, now_ms) == (
            Coordinator { phase: Phase::Terminated, in_flight: 0 },
            Action::Exit { abandoned: 0 },
        ),
{
}

/// At the deadline the drain ends whatever is in flight, and what is still
/// in flight then is given up.
pub proof fn lemma_deadline_ends_drain(c: Coordinator, deadline_ms: u64, event: Event, now_ms: u64)
    requires
        c.phase == (Phase::Draining { deadline_ms }),
        now_ms >= deadline_ms,
    ensures
        c.next(event, now_ms).0 == (Coordinator { phase: Phase::Terminated, in_flight: 0 }),
        c.next(event, now_ms).1 is Exit,
        event != Event::RequestFinished ==> c.next(event, now_ms).1 == (Action::Exit {
            abandoned: c.in_flight,
        }),
{
}

/// How many requests one step accepts.
pub open spec fn accepted_by(c: Coordinator, event: Event, now_ms: u64) -> nat {
    if c.next(event, now_ms).1 == Action::Accept {
        1
    } else {
        0
    }
}

/// How many requests one step takes out of flight as finished.
pub open spec fn finished_by(c: Coordinator, event: Event) -> nat {
    if event == Event::RequestFinished && c.phase != Phase::Terminated && c.in_flight > 0 {
        1
    } else {
        0
    }
}

/// How many requests one step gives up.
pub open spec fn abandoned_by(c: Coordinator, event: Event, now_ms: u64) -> nat {
    match c.next(event, now_ms).1 {
        Action::Exit { abandoned } => abandoned as nat,
        _ => 0,
    }
}

/// The coordinator after a run of events, each with its time.
pub open spec fn after_run(c: Coordinator, events: Seq<(Event, u64)>) -> Coordinator
    decreases events.len(),
{
    if events.len() == 0 {
        c
    } else {
        after_run(c, events.drop_last()).next(events.last().0, events.last().1).0
    }
}

/// How many requests a run of events accepts.
pub open spec fn accepted_in(c: Coordinator, events: Seq<(Event, u64)>) -> nat
    decreases events.len(),
{
    if events.len() == 0 {
        0
    } else {
        accepted_in(c, events.drop_last()) + accepted_by(
            after_run(c, events.drop_last()),
            events.last().0,
            events.last().1,
        )
    }
}

/// How many requests a run of events takes out of flight as finished.
pub open spec fn finished_in(c: Coordinator, events: Seq<(Event, u64)>) -> nat
    decreases events.len(),
{
    if events.len() == 0 {
        0
    } else {
        finished_in(c, events.drop_last()) + finished_by(
            after_run(c, events.drop_last()),
            events.last().0,
        )
    }
}

/// How many requests a run of events gives up.
pub open spec fn abandoned_in(c: Coordinator, events: Seq<(Event, u64)>) -> nat
    decreases events.len(),
{
    if events.len() == 0 {
        0
    } else {
        abandoned_in(c, events.drop_last()) + abandoned_by(
            after_run(c, events.drop_last()),
            events.last().0,
            events.last().1,
        )
    }
}

/// One step loses no request and counts none twice: what was in flight and
/// what the step accepts is what it finishes, what it gives up and what is
/// in flight afterwards.
pub proof fn lemma_step_settles_once(c: Coordinator, event: Event, now_ms: u64)
    ensures
        c.in_flight + accepted_by(c, event, now_ms) == finished_by(c, event) + abandoned_by(
            c,
            event,
            now_ms,
        ) + c.next(event, now_ms).0.in_flight,
{
}

/// Every request is settled exactly once, whatever happens: over any run of
/// events, the requests in flight at the start and those accepted since are
/// the ones that finished, the ones given up at the exit and the ones still
/// in flight.
pub proof fn lemma_run_settles_once(c: Coordinator, events: Seq<(Event, u64)>)
    ensures
        c.in_flight + accepted_in(c, events) == finished_in(c, events) + abandoned_in(c, events)
            + after_run(c, events).in_flight,
    decreases events.len(),
{
    if events.len() > 0 {
        lemma_run_settles_once(c, events.drop_last());
        lemma_step_settles_once(
            after_run(c, events.drop_last()),
            events.last().0,
            events.last().1,
        );
    }
}

/// Once a run has left the serving phase it accepts nothing more and stays
/// out of that phase, however many signals or arrivals follow.
pub proof fn lemma_run_after_signal(c: Coordinator, events: Seq<(Event, u64)>)
    requires
        c.phase != Phase::Serving,
    ensures
        after_run(c, events).phase != Phase::Serving,
        accepted_in(c, events) == 0,
        c.phase is Draining ==> after_run(c, events).phase == c.phase || after_run(
            c,
            events,
        ).phase == Phase::Terminated,
    decreases events.len(),
{
    if events.len() > 0 {
        lemma_run_after_signal(c, events.drop_last());
    }
}

/// The coordinator gives up requests at one moment only: an `Exit` ends in
/// the terminated phase with nothing in flight, it comes out of a drain, and
/// the terminated phase changes no more.
pub proof fn lemma_exit_happens_once(c: Coordinator, event: Event, now_ms: u64)
    ensures
        c.next(event, now_ms).1 is Exit ==> c.next(event, now_ms).0 == (Coordinator {
            phase: Phase::Terminated,
            in_flight: 0,
        }),
        c.next(event, now_ms).1 is Exit ==> c.phase is Draining,
        c.next(event, now_ms).1 is Exit ==> c.next(event, now_ms).1->abandoned <= c.in_flight,
        c.phase == Phase::Terminated ==> c.next(event, now_ms).0 == c,
        c.phase == Phase::Terminated ==> !(c.next(event, now_ms).1 is Exit),
{
}

} // verus!

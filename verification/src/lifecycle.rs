//! The life of a listener, and of the two listeners together.
//!
//! A listener is idle, binds, serves, drains and stops. The program performs
//! the work (it binds the socket, accepts connections, waits for signals)
//! and reports each thing that happened as an [`Event`]; the listener
//! answers with the [`Action`] to take.
//!
//! The site and the metrics endpoint are two such listeners. They start
//! together and get the same shutdown, and otherwise know nothing of each
//! other: either may fail, or finish draining, without the other noticing.

use vstd::prelude::*;

verus! {

/// Where a listener is in its life.
#[derive(Clone, Copy, Debug, PartialEq, Eq, Structural)]
pub enum Phase {
    /// Not started.
    Idle,
    /// Binding its address.
    Binding,
    /// Accepting connections.
    Serving,
    /// Accepting nothing new; waiting for the requests in flight.
    Draining,
    /// Done: the socket is released, or was never had.
    Stopped,
}

/// What happened.
#[derive(Clone, Copy, Debug, PartialEq, Eq, Structural)]
pub enum Event {
    /// The listener is asked to start.
    Start,
    /// The address is bound.
    Bound,
    /// The settings were unusable or the address could not be bound.
    Failed,
    /// A connection arrived.
    Accepted,
    /// A request in flight came to its end: answered, failed or timed out.
    Finished,
    /// An interrupt or terminate signal arrived.
    Shutdown,
}

/// What to do about it.
#[derive(Clone, Copy, Debug, PartialEq, Eq, Structural)]
pub enum Action {
    /// Nothing.
    Nothing,
    /// Bind the configured address.
    Bind,
    /// Begin to accept connections.
    Listen,
    /// Hand the connection to the routes.
    Dispatch,
    /// Turn the connection away.
    Refuse,
    /// Accept no more connections; let the requests in flight finish.
    StopAccepting,
    /// Release the socket.
    Release,
    /// Log the failure; this listener will not serve.
    ReportFailure,
}

/// A listener: its phase and the number of requests it has in flight.
#[derive(Clone, Copy, Debug, PartialEq, Eq, Structural)]
pub struct Listener {
    pub phase: Phase,
    pub in_flight: u64,
}

/// Which of the two listeners.
#[derive(Clone, Copy, Debug, PartialEq, Eq, Structural)]
pub enum Which {
    Site,
    Metrics,
}

/// The site's listener and, where metrics are on, the metrics listener.
#[derive(Clone, Copy, Debug, PartialEq, Eq)]
pub struct Coordinator {
    pub site: Listener,
    pub metrics: Option<Listener>,
}

/// A listener in `phase` with `in_flight` requests in flight.
pub open spec fn listener(phase: Phase, in_flight: u64) -> Listener {
    Listener { phase, in_flight }
}

/// The listener after `event`, and the action that the event calls for.
///
/// An event that makes no sense in a phase changes nothing and calls for
/// nothing. A shutdown before the listener serves stops it at once.
pub open spec fn next(state: Listener, event: Event) -> (Listener, Action) {
    match (state.phase, event) {
        (Phase::Idle, Event::Start) => (listener(Phase::Binding, 0), Action::Bind),
        (Phase::Idle, Event::Failed) => (listener(Phase::Stopped, 0), Action::ReportFailure),
        (Phase::Idle, Event::Shutdown) => (listener(Phase::Stopped, 0), Action::Nothing),
        (Phase::Binding, Event::Bound) => (listener(Phase::Serving, 0), Action::Listen),
        (Phase::Binding, Event::Failed) => (listener(Phase::Stopped, 0), Action::ReportFailure),
        (Phase::Binding, Event::Shutdown) => (listener(Phase::Stopped, 0), Action::Nothing),
        (Phase::Serving, Event::Accepted) => if state.in_flight < u64::MAX {
            (listener(Phase::Serving, (state.in_flight + 1) as u64), Action::Dispatch)
        } else {
            (state, Action::Refuse)
        },
        (Phase::Serving, Event::Finished) => if state.in_flight > 0 {
            (listener(Phase::Serving, (state.in_flight - 1) as u64), Action::Nothing)
        } else {
            (state, Action::Nothing)
        },
        (Phase::Serving, Event::Shutdown) => if state.in_flight > 0 {
            (listener(Phase::Draining, state.in_flight), Action::StopAccepting)
        } else {
            (listener(Phase::Stopped, 0), Action::Release)
        },
        (Phase::Draining, Event::Accepted) => (state, Action::Refuse),
        (Phase::Draining, Event::Finished) => if state.in_flight > 1 {
            (listener(Phase::Draining, (state.in_flight - 1) as u64), Action::Nothing)
        } else {
            (listener(Phase::Stopped, 0), Action::Release)
        },
        _ => (state, Action::Nothing),
    }
}

/// The listener after a run of events.
pub open spec fn run(state: Listener, events: Seq<Event>) -> Listener
    decreases events.len(),
{
    if events.len() == 0 {
        state
    } else {
        run(next(state, events[0]).0, events.skip(1))
    }
}

/// How many of `events` are the end of a request.
pub open spec fn finished_among(events: Seq<Event>) -> nat
    decreases events.len(),
{
    if events.len() == 0 {
        0
    } else if events[0] == Event::Finished {
        1 + finished_among(events.skip(1))
    } else {
        finished_among(events.skip(1))
    }
}

/// What is left of `in_flight` requests when `finished` of them have ended.
pub open spec fn left_in_flight(in_flight: u64, finished: nat) -> u64 {
    if finished < in_flight {
        (in_flight - finished) as u64
    } else {
        0
    }
}

impl Listener {
    /// Requests are in flight only while serving or draining, and a draining
    /// listener has at least one.
    pub open spec fn wf(&self) -> bool {
        match self.phase {
            Phase::Serving => true,
            Phase::Draining => self.in_flight > 0,
            _ => self.in_flight == 0,
        }
    }

    /// The listener has accepted its last connection.
    pub open spec fn closed(&self) -> bool {
        self.phase == Phase::Draining || self.phase == Phase::Stopped
    }

    /// A listener that has not started.
    pub fn new() -> (state: Listener)
        ensures
            state == listener(Phase::Idle, 0),
            state.wf(),
    {
        Listener { phase: Phase::Idle, in_flight: 0 }
    }

    /// Takes note of `event` and says what to do about it.
    pub fn step(&mut self, event: Event) -> (action: Action)
        ensures
            (*final(self), action) == next(*old(self), event),
            old(self).wf() ==> final(self).wf(),
    {
        let (after, action): (Listener, Action) = match (self.phase, event) {
            (Phase::Idle, Event::Start) => (
                Listener { phase: Phase::Binding, in_flight: 0 },
                Action::Bind,
            ),
            (Phase::Idle, Event::Failed) | (Phase::Binding, Event::Failed) => (
                Listener { phase: Phase::Stopped, in_flight: 0 },
                Action::ReportFailure,
            ),
            (Phase::Idle, Event::Shutdown) | (Phase::Binding, Event::Shutdown) => (
                Listener { phase: Phase::Stopped, in_flight: 0 },
                Action::Nothing,
            ),
            (Phase::Binding, Event::Bound) => (
                Listener { phase: Phase::Serving, in_flight: 0 },
                Action::Listen,
            ),
            (Phase::Serving, Event::Accepted) => {
                if self.in_flight < u64::MAX {
                    (
                        Listener { phase: Phase::Serving, in_flight: self.in_flight + 1 },
                        Action::Dispatch,
                    )
                } else {
                    (*self, Action::Refuse)
                }
            },
            (Phase::Serving, Event::Finished) => {
                if self.in_flight > 0 {
                    (
                        Listener { phase: Phase::Serving, in_flight: self.in_flight - 1 },
                        Action::Nothing,
                    )
                } else {
                    (*self, Action::Nothing)
                }
            },
            (Phase::Serving, Event::Shutdown) => {
                if self.in_flight > 0 {
                    (
                        Listener { phase: Phase::Draining, in_flight: self.in_flight },
                        Action::StopAccepting,
                    )
                } else {
                    (Listener { phase: Phase::Stopped, in_flight: 0 }, Action::Release)
                }
            },
            (Phase::Draining, Event::Accepted) => (*self, Action::Refuse),
            (Phase::Draining, Event::Finished) => {
                if self.in_flight > 1 {
                    (
                        Listener { phase: Phase::Draining, in_flight: self.in_flight - 1 },
                        Action::Nothing,
                    )
                } else {
                    (Listener { phase: Phase::Stopped, in_flight: 0 }, Action::Release)
                }
            },
            _ => (*self, Action::Nothing),
        };
        *self = after;
        action
    }

    /// Whether the listener is done.
    pub fn is_stopped(&self) -> (stopped: bool)
        ensures
            stopped == (self.phase == Phase::Stopped),
    {
        match self.phase {
            Phase::Stopped => true,
            _ => false,
        }
    }
}

impl Coordinator {
    /// Both listeners are well-formed.
    pub open spec fn wf(&self) -> bool {
        &&& self.site.wf()
        &&& self.metrics matches Some(m) ==> m.wf()
    }

    /// The listener meant by `which`, if there is one.
    pub open spec fn get(&self, which: Which) -> Option<Listener> {
        match which {
            Which::Site => Some(self.site),
            Which::Metrics => self.metrics,
        }
    }

    /// The coordinator after `event` has reached every listener, and the
    /// actions that it calls for. A listener that does not exist gets no
    /// event and has no action.
    pub open spec fn after_all(&self, event: Event) -> (Coordinator, Action, Option<Action>) {
        (
            Coordinator {
                site: next(self.site, event).0,
                metrics: match self.metrics {
                    Some(m) => Some(next(m, event).0),
                    None => None,
                },
            },
            next(self.site, event).1,
            match self.metrics {
                Some(m) => Some(next(m, event).1),
                None => None,
            },
        )
    }

    /// Every listener is done.
    pub open spec fn all_stopped(&self) -> bool {
        &&& self.site.phase == Phase::Stopped
        &&& self.metrics matches Some(m) ==> m.phase == Phase::Stopped
    }

    /// The listeners before anything has started: the site's, and the
    /// metrics listener where metrics are on.
    pub fn new(metrics_enabled: bool) -> (both: Coordinator)
        ensures
            both.site == listener(Phase::Idle, 0),
            both.metrics == if metrics_enabled {
                Some(listener(Phase::Idle, 0))
            } else {
                None::<Listener>
            },
            both.wf(),
    {
        Coordinator {
            site: Listener::new(),
            metrics: if metrics_enabled {
                Some(Listener::new())
            } else {
                None
            },
        }
    }

    /// Hands `event` to every listener at once.
    fn tell_all(&mut self, event: Event) -> (actions: (Action, Option<Action>))
        ensures
            (*final(self), actions.0, actions.1) == old(self).after_all(event),
            old(self).wf() ==> final(self).wf(),
    {
        let site_action: Action = self.site.step(event);
        let metrics_action: Option<Action> = match self.metrics {
            Some(mut m) => {
                let action: Action = m.step(event);
                self.metrics = Some(m);
                Some(action)
            },
            None => None,
        };
        (site_action, metrics_action)
    }

    /// Starts every listener. The first action is for the site, the second
    /// for the metrics listener.
    pub fn start(&mut self) -> (actions: (Action, Option<Action>))
        ensures
            (*final(self), actions.0, actions.1) == old(self).after_all(Event::Start),
            old(self).wf() ==> final(self).wf(),
    {
        self.tell_all(Event::Start)
    }

    /// Passes the shutdown signal to every listener at once. The first
    /// action is for the site, the second for the metrics listener.
    pub fn shutdown(&mut self) -> (actions: (Action, Option<Action>))
        ensures
            (*final(self), actions.0, actions.1) == old(self).after_all(Event::Shutdown),
            old(self).wf() ==> final(self).wf(),
    {
        self.tell_all(Event::Shutdown)
    }

    /// Hands `event` to one listener. The other is left as it is. An event
    /// for a metrics listener that does not exist changes nothing.
    pub fn deliver(&mut self, which: Which, event: Event) -> (action: Action)
        ensures
            match which {
                Which::Site => (final(self).site, action) == next(old(self).site, event)
                    && final(self).metrics == old(self).metrics,
                Which::Metrics => final(self).site == old(self).site && match old(self).metrics {
                    Some(m) => (final(self).metrics, action) == (Some(next(m, event).0), next(
                        m,
                        event,
                    ).1),
                    None => final(self).metrics.is_none() && action == Action::Nothing,
                },
            },
            old(self).wf() ==> final(self).wf(),
    {
        match which {
            Which::Site => self.site.step(event),
            Which::Metrics => match self.metrics {
                Some(mut m) => {
                    let action: Action = m.step(event);
                    self.metrics = Some(m);
                    action
                },
                None => Action::Nothing,
            },
        }
    }

    /// Whether every listener is done, so that the process may exit.
    pub fn finished(&self) -> (done: bool)
        ensures
            done == self.all_stopped(),
    {
        let metrics_done: bool = match self.metrics {
            Some(m) => m.is_stopped(),
            None => true,
        };
        self.site.is_stopped() && metrics_done
    }
}

/// Once a listener has accepted its last connection it accepts no other:
/// whatever happens next, it stays closed, no connection is dispatched, and
/// the number of requests in flight does not grow.
pub proof fn lemma_closed_stays_closed(state: Listener, event: Event)
    requires
        state.closed(),
    ensures
        next(state, event).0.closed(),
        next(state, event).0.in_flight <= state.in_flight,
        next(state, event).1 != Action::Dispatch,
        next(state, event).1 != Action::Listen,
{
}

/// A connection is dispatched only by a listener that is serving.
pub proof fn lemma_dispatch_only_while_serving(state: Listener, event: Event)
    requires
        next(state, event).1 == Action::Dispatch,
    ensures
        state.phase == Phase::Serving,
        event == Event::Accepted,
        next(state, event).0.in_flight == state.in_flight + 1,
{
}

/// The shutdown signal counts once: a second one changes nothing.
pub proof fn lemma_shutdown_counts_once(state: Listener)
    ensures
        next(next(state, Event::Shutdown).0, Event::Shutdown) == (
            next(state, Event::Shutdown).0,
            Action::Nothing,
        ),
        next(state, Event::Shutdown).0.phase != Phase::Serving,
        state.phase == Phase::Serving ==> next(state, Event::Shutdown).0.closed(),
{
}

/// Every step keeps a listener well-formed.
pub proof fn lemma_next_keeps_wf(state: Listener, event: Event)
    requires
        state.wf(),
    ensures
        next(state, event).0.wf(),
{
}

/// After its last connection a listener only drains: whatever events
/// follow, every request in flight is waited for, each end of a request
/// takes one off, no new one is added, and the listener is stopped exactly
/// when none is left.
pub proof fn lemma_drain(state: Listener, events: Seq<Event>)
    requires
        state.wf(),
        state.closed(),
    ensures
        run(state, events).in_flight == left_in_flight(state.in_flight, finished_among(events)),
        run(state, events).phase == if finished_among(events) < state.in_flight {
            Phase::Draining
        } else {
            Phase::Stopped
        },
    decreases events.len(),
{
    if events.len() > 0 {
        let after = next(state, events[0]).0;
        lemma_closed_stays_closed(state, events[0]);
        lemma_next_keeps_wf(state, events[0]);
        lemma_drain(after, events.skip(1));
    }
}

/// After the shutdown signal a serving listener accepts nothing new and
/// lets the requests that were in flight when the signal came run to their
/// end.
pub proof fn lemma_graceful_shutdown(state: Listener, events: Seq<Event>)
    requires
        state.phase == Phase::Serving,
    ensures
        run(state, seq![Event::Shutdown] + events).in_flight == left_in_flight(
            state.in_flight,
            finished_among(events),
        ),
        run(state, seq![Event::Shutdown] + events).phase == if finished_among(events)
            < state.in_flight {
            Phase::Draining
        } else {
            Phase::Stopped
        },
{
    let all = seq![Event::Shutdown] + events;
    assert(all[0] == Event::Shutdown);
    assert(all.skip(1) =~= events);
    lemma_drain(next(state, Event::Shutdown).0, events);
}

} // verus!

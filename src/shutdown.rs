use vstd::prelude::*;

verus! {

/// How long the daemon waits for open connections once it is draining.
pub const DRAIN_TIMEOUT_SECONDS: u64 = 10;

/// The daemon's phase: serving, finishing the connections it has, or done.
#[derive(Clone, Copy, Debug, PartialEq, Eq, Structural)]
pub enum Phase {
    Running,
    Draining,
    Stopped,
}

/// Decides when the daemon accepts connections and when it may stop.
///
/// A termination signal moves it from `Running` to `Draining`: from then on
/// no connection is admitted, and it stops once the connections in flight
/// have all finished, or when the drain deadline has passed.
#[derive(Debug)]
pub struct ShutdownCoordinator {
    phase: Phase,
    in_flight: u64,
}

/// What a [`ShutdownCoordinator`] is: its phase and the number of
/// connections in flight.
pub ghost struct CoordinatorView {
    pub phase: Phase,
    pub in_flight: int,
}

/// What the coordinator is told.
pub ghost enum ShutdownEvent {
    /// A listener accepted a connection and asks to serve it.
    Accept,
    /// A connection that was admitted has finished.
    Finish,
    /// The termination signal arrived.
    Signal,
    /// The drain deadline has passed.
    Deadline,
}

/// Whether a connection accepted in state `s` is served.
pub open spec fn accepts(s: CoordinatorView) -> bool {
    s.phase == Phase::Running && s.in_flight < u64::MAX
}

/// The state after `e`.
pub open spec fn step(s: CoordinatorView, e: ShutdownEvent) -> CoordinatorView {
    match e {
        ShutdownEvent::Accept => if accepts(s) {
            CoordinatorView { in_flight: s.in_flight + 1, ..s }
        } else {
            s
        },
        ShutdownEvent::Finish => if s.in_flight == 0 {
            s
        } else if s.phase == Phase::Draining && s.in_flight == 1 {
            CoordinatorView { phase: Phase::Stopped, in_flight: 0 }
        } else {
            CoordinatorView { in_flight: s.in_flight - 1, ..s }
        },
        ShutdownEvent::Signal => if s.phase != Phase::Running {
            s
        } else if s.in_flight == 0 {
            CoordinatorView { phase: Phase::Stopped, ..s }
        } else {
            CoordinatorView { phase: Phase::Draining, ..s }
        },
        ShutdownEvent::Deadline => if s.phase == Phase::Draining {
            CoordinatorView { phase: Phase::Stopped, ..s }
        } else {
            s
        },
    }
}

/// The state after each of `events` in turn.
pub open spec fn step_all(s: CoordinatorView, events: Seq<ShutdownEvent>) -> CoordinatorView
    decreases events.len(),
{
    if events.len() == 0 {
        s
    } else {
        step(step_all(s, events.drop_last()), events.last())
    }
}

impl CoordinatorView {
    /// A draining coordinator always has a connection to wait for.
    pub open spec fn well_formed(self) -> bool {
        &&& 0 <= self.in_flight <= u64::MAX
        &&& self.phase == Phase::Draining ==> self.in_flight > 0
    }
}

impl View for ShutdownCoordinator {
    type V = CoordinatorView;

    closed spec fn view(&self) -> CoordinatorView {
        CoordinatorView { phase: self.phase, in_flight: self.in_flight as int }
    }
}

impl ShutdownCoordinator {
    /// A running coordinator with no connection in flight.
    pub fn new() -> (r: ShutdownCoordinator)
        ensures
            r@ == (CoordinatorView { phase: Phase::Running, in_flight: 0 }),
            r@.well_formed(),
    {
        ShutdownCoordinator { phase: Phase::Running, in_flight: 0 }
    }

    /// The current phase.
    pub fn phase(&self) -> (r: Phase)
        ensures
            r == self@.phase,
    {
        self.phase
    }

    /// The number of admitted connections that have not finished.
    pub fn in_flight(&self) -> (r: u64)
        ensures
            r == self@.in_flight,
    {
        self.in_flight
    }

    /// Asks to serve a connection that a listener accepted: granted, and
    /// counted, only while running.
    pub fn try_accept(&mut self) -> (r: bool)
        requires
            old(self)@.well_formed(),
        ensures
            r == accepts(old(self)@),
            final(self)@ == step(old(self)@, ShutdownEvent::Accept),
            final(self)@.well_formed(),
    {
        if self.phase == Phase::Running && self.in_flight < u64::MAX {
            self.in_flight = self.in_flight + 1;
            true
        } else {
            false
        }
    }

    /// Records that an admitted connection has finished; a draining
    /// coordinator stops with its last one.
    pub fn finish(&mut self)
        requires
            old(self)@.well_formed(),
        ensures
            final(self)@ == step(old(self)@, ShutdownEvent::Finish),
            final(self)@.well_formed(),
    {
        if self.in_flight == 0 {
            return;
        }
        if self.phase == Phase::Draining && self.in_flight == 1 {
            self.phase = Phase::Stopped;
        }
        self.in_flight = self.in_flight - 1;
    }

    /// Records the termination signal: a running coordinator drains, or
    /// stops at once when nothing is in flight.
    pub fn signal(&mut self)
        requires
            old(self)@.well_formed(),
        ensures
            final(self)@ == step(old(self)@, ShutdownEvent::Signal),
            final(self)@.well_formed(),
    {
        if self.phase == Phase::Running {
            if self.in_flight == 0 {
                self.phase = Phase::Stopped;
            } else {
                self.phase = Phase::Draining;
            }
        }
    }

    /// Records that the drain deadline has passed: a draining coordinator
    /// stops without waiting further.
    pub fn deadline_elapsed(&mut self)
        requires
            old(self)@.well_formed(),
        ensures
            final(self)@ == step(old(self)@, ShutdownEvent::Deadline),
            final(self)@.well_formed(),
    {
        if self.phase == Phase::Draining {
            self.phase = Phase::Stopped;
        }
    }
}

/// Once the termination signal has arrived, no connection is admitted
/// again, whatever happens next.
pub proof fn lemma_no_admission_after_signal(s: CoordinatorView, events: Seq<ShutdownEvent>)
    ensures
        !accepts(step_all(step(s, ShutdownEvent::Signal), events)),
        step_all(step(s, ShutdownEvent::Signal), events).phase != Phase::Running,
    decreases events.len(),
{
    if events.len() > 0 {
        lemma_no_admission_after_signal(s, events.drop_last());
    }
}

/// The coordinator stops only when the drain deadline passes or when no
/// connection is left in flight: a connection being served when the signal
/// arrives is finished before the daemon stops, unless the deadline cuts it
/// short.
pub proof fn lemma_stops_only_when_drained(s: CoordinatorView, e: ShutdownEvent)
    requires
        s.phase != Phase::Stopped,
        step(s, e).phase == Phase::Stopped,
    ensures
        e == ShutdownEvent::Deadline || step(s, e).in_flight == 0,
{
}

} // verus!

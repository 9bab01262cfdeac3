//! The lifecycle coordinator: starting, serving, draining. It records the
//! outcome of the one-time initialization, the bind of the listener, the
//! admission and completion of requests, and the termination signal that
//! begins the graceful drain. The outside runtime performs each of those
//! actions; the coordinator decides what each outcome means and keeps the
//! process-wide invariants: at most one connection is ever established,
//! no request is admitted before initialization succeeded or after a
//! termination signal, and a clean exit happens only once every admitted
//! request has completed.

use vstd::prelude::*;

verus! {

/// The phase of the process. `Stopped` is the clean terminal phase
/// reached after a drain; `Failed` is the terminal phase of a startup
/// fault. There is no transition out of a terminal phase and no
/// transition back to `Starting`: no hot-restart, no retry.
#[derive(Clone, Copy, PartialEq, Eq, Structural, Debug)]
pub enum Phase {
    Starting,
    Serving,
    Draining,
    Stopped,
    Failed,
}

/// The process-wide lifecycle ledger: the current phase, how many
/// connections were established (never more than one), and how many
/// requests were admitted and completed.
#[derive(Clone, Copy, PartialEq, Eq, Structural, Debug)]
pub struct Coordinator {
    pub phase: Phase,
    pub connections: u64,
    pub admitted: u64,
    pub completed: u64,
}

impl Coordinator {
    /// The invariant every operation preserves.
    pub open spec fn wf(self) -> bool {
        &&& self.completed <= self.admitted
        &&& self.connections <= 1
        &&& (self.phase == Phase::Starting ==> self.admitted == 0)
        &&& (self.phase == Phase::Failed ==> self.admitted == 0)
        &&& (self.phase == Phase::Serving ==> self.connections == 1)
        &&& (self.phase == Phase::Draining ==> self.connections == 1)
        &&& (self.phase == Phase::Stopped ==> self.connections == 1 && self.completed
            == self.admitted)
    }

    /// New requests are accepted exactly while serving.
    pub open spec fn accepting(self) -> bool {
        self.phase == Phase::Serving
    }

    /// Requests admitted whose response has not yet been delivered.
    pub open spec fn in_flight(self) -> int {
        self.admitted - self.completed
    }

    /// The code the process exits with: 0 after a clean drain, non-zero
    /// after a startup fault, and none while the process still runs.
    pub open spec fn spec_exit_code(self) -> Option<u8> {
        match self.phase {
            Phase::Stopped => Option::Some(0u8),
            Phase::Failed => Option::Some(1u8),
            _ => Option::None,
        }
    }

    /// A fresh process: starting, nothing established, nothing admitted.
    pub fn new() -> (c: Coordinator)
        ensures
            c.wf(),
            c.phase == Phase::Starting,
            c.connections == 0,
            c.admitted == 0,
            c.completed == 0,
    {
        Coordinator { phase: Phase::Starting, connections: 0, admitted: 0, completed: 0 }
    }

    /// Record the outcome of the one-time initialization sequence. It can
    /// only happen while starting and before any connection exists, so a
    /// second authentication attempt is impossible by construction: after
    /// success one connection exists, after failure the process is in its
    /// terminal failed phase.
    pub fn initialize(&mut self, ok: bool)
        requires
            old(self).wf(),
            old(self).phase == Phase::Starting,
            old(self).connections == 0,
        ensures
            final(self).wf(),
            ok ==> final(self).phase == Phase::Starting && final(self).connections == 1,
            !ok ==> final(self).phase == Phase::Failed && final(self).connections == 0,
            final(self).admitted == 0,
            final(self).completed == 0,
    {
        if ok {
            self.connections = 1;
        } else {
            self.phase = Phase::Failed;
        }
    }

    /// Record the outcome of binding the HTTP listener. Binding comes
    /// after initialization succeeded; on success the process begins to
    /// serve, on failure it fails fast like any other startup fault.
    pub fn bind(&mut self, ok: bool)
        requires
            old(self).wf(),
            old(self).phase == Phase::Starting,
            old(self).connections == 1,
        ensures
            final(self).wf(),
            ok ==> final(self).phase == Phase::Serving,
            !ok ==> final(self).phase == Phase::Failed,
            final(self).connections == old(self).connections,
            final(self).admitted == 0,
            final(self).completed == 0,
    {
        if ok {
            self.phase = Phase::Serving;
        } else {
            self.phase = Phase::Failed;
        }
    }

    /// Admission decision for one incoming request: accepted exactly
    /// while serving. Admission never touches the connection — no new
    /// session, no new authentication — and once draining (or before
    /// serving began) every new request is refused unchanged.
    pub fn accept(&mut self) -> (accepted: bool)
        requires
            old(self).wf(),
            old(self).admitted < u64::MAX,
        ensures
            final(self).wf(),
            accepted == old(self).accepting(),
            *final(self) == spec_step(*old(self), ServingEvent::Request),
            accepted ==> final(self).admitted == old(self).admitted + 1,
            !accepted ==> final(self).admitted == old(self).admitted,
            final(self).phase == old(self).phase,
            final(self).connections == old(self).connections,
            final(self).completed == old(self).completed,
    {
        match self.phase {
            Phase::Serving => {
                self.admitted = self.admitted + 1;
                true
            },
            _ => false,
        }
    }

    /// One admitted request ran to completion and its response was
    /// delivered. Admitted requests are never cancelled: they complete
    /// while serving and equally while draining.
    pub fn complete(&mut self)
        requires
            old(self).wf(),
            old(self).in_flight() > 0,
        ensures
            final(self).wf(),
            final(self).completed == old(self).completed + 1,
            *final(self) == spec_step(*old(self), ServingEvent::Completion),
            final(self).phase == old(self).phase,
            final(self).connections == old(self).connections,
            final(self).admitted == old(self).admitted,
    {
        self.completed = self.completed + 1;
    }

    /// A termination signal arrived while serving. Interrupt, terminate
    /// and quit all lead here: stop accepting new requests, keep the
    /// in-flight ones running.
    pub fn signal(&mut self)
        requires
            old(self).wf(),
            old(self).phase == Phase::Serving,
        ensures
            final(self).wf(),
            final(self).phase == Phase::Draining,
            !final(self).accepting(),
            *final(self) == spec_step(*old(self), ServingEvent::Signal),
            final(self).connections == old(self).connections,
            final(self).admitted == old(self).admitted,
            final(self).completed == old(self).completed,
    {
        self.phase = Phase::Draining;
    }

    /// The drain is over: every admitted request has completed, so the
    /// process may exit cleanly. There is no bound on how long the drain
    /// waits — the coordinator waits unconditionally for completion.
    pub fn finish_drain(&mut self)
        requires
            old(self).wf(),
            old(self).phase == Phase::Draining,
            old(self).in_flight() == 0,
        ensures
            final(self).wf(),
            final(self).phase == Phase::Stopped,
            final(self).spec_exit_code() == Option::Some(0u8),
            final(self).connections == old(self).connections,
            final(self).admitted == old(self).admitted,
            final(self).completed == old(self).completed,
    {
        self.phase = Phase::Stopped;
    }

    /// The code the process exits with, if it has reached a terminal
    /// phase.
    pub fn exit_code(&self) -> (r: Option<u8>)
        ensures
            r == self.spec_exit_code(),
    {
        match self.phase {
            Phase::Stopped => Some(0u8),
            Phase::Failed => Some(1u8),
            _ => None,
        }
    }
}

/// An event the process observes once startup is over: an incoming
/// request (admitted or refused by the coordinator), the completion of
/// an admitted request, or a termination signal.
#[derive(Clone, Copy, PartialEq, Eq, Structural, Debug)]
pub enum ServingEvent {
    Request,
    Completion,
    Signal,
}

/// What one serving-phase event does to the coordinator. An event whose
/// condition does not hold (a request while not serving, a completion
/// with nothing in flight, a signal outside the serving phase) leaves
/// the coordinator unchanged.
pub open spec fn spec_step(c: Coordinator, e: ServingEvent) -> Coordinator {
    match e {
        ServingEvent::Request => if c.accepting() && c.admitted < u64::MAX {
            Coordinator { admitted: (c.admitted + 1) as u64, ..c }
        } else {
            c
        },
        ServingEvent::Completion => if c.in_flight() > 0 {
            Coordinator { completed: (c.completed + 1) as u64, ..c }
        } else {
            c
        },
        ServingEvent::Signal => if c.phase == Phase::Serving {
            Coordinator { phase: Phase::Draining, ..c }
        } else {
            c
        },
    }
}

/// The coordinator after a whole sequence of serving-phase events.
pub open spec fn spec_run(c: Coordinator, events: Seq<ServingEvent>) -> Coordinator
    decreases events.len(),
{
    if events.len() == 0 {
        c
    } else {
        spec_run(spec_step(c, events[0]), events.skip(1))
    }
}

/// Exactly-once by construction, over every possible workload: whatever
/// sequence of requests, completions and signals the process observes —
/// before or after the database becomes unreachable, in any
/// interleaving — the number of established connections never changes,
/// so no second session and no second authentication attempt ever
/// happens; and the coordinator stays well-formed throughout.
pub proof fn lemma_no_second_connection(c: Coordinator, events: Seq<ServingEvent>)
    requires
        c.wf(),
    ensures
        spec_run(c, events).connections == c.connections,
        spec_run(c, events).wf(),
    decreases events.len(),
{
    if events.len() > 0 {
        lemma_no_second_connection(spec_step(c, events[0]), events.skip(1));
    }
}

/// Exactly-once by construction: a well-formed coordinator never holds
/// more than one established connection, however it was driven — and the
/// ensures of `accept` and `complete` add that handling requests never
/// changes how many connections were made.
pub proof fn lemma_single_connection(c: Coordinator)
    requires
        c.wf(),
    ensures
        c.connections <= 1,
{
}

/// Initialization strictly precedes service: a coordinator that has
/// admitted even one request holds the single established connection, so
/// the connect -> authenticate -> select sequence happened before the
/// first request was accepted.
pub proof fn lemma_init_before_service(c: Coordinator)
    requires
        c.wf(),
        c.admitted > 0,
    ensures
        c.connections == 1,
{
}

/// Graceful shutdown: while draining no new request is accepted — an
/// arriving request leaves the coordinator untouched — but a request
/// admitted before the signal still completes, and the clean terminal
/// phase is only reached once every admitted request has completed:
/// each admitted response was delivered before exit.
pub proof fn lemma_graceful_drain(c: Coordinator)
    requires
        c.wf(),
    ensures
        c.phase == Phase::Draining ==> !c.accepting(),
        c.phase == Phase::Draining ==> spec_step(c, ServingEvent::Request) == c,
        c.phase == Phase::Draining && c.in_flight() > 0 ==> spec_step(
            c,
            ServingEvent::Completion,
        ).completed == c.completed + 1,
        c.phase == Phase::Stopped ==> c.completed == c.admitted,
{
}

/// Fail-fast startup: a process whose startup faulted exits non-zero and
/// has never admitted a single request.
pub proof fn lemma_failed_startup_serves_nothing(c: Coordinator)
    requires
        c.wf(),
        c.phase == Phase::Failed,
    ensures
        c.spec_exit_code() == Option::Some(1u8),
        c.admitted == 0,
{
}

} // verus!

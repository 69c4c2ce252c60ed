//! The supervisor state machine.
//!
//! A `Supervisor` decides, step by step, how a managed backend process is
//! brought up and torn down. It never performs an outside action itself:
//! `next_action` says what the host must do next (probe the liveness
//! endpoint, spawn the selected strategy, sleep one poll interval, or stop
//! with an outcome), and the host reports each result back through
//! `on_probe_result`, `on_spawn_result` and `on_slept`. `shutdown` says
//! whether a termination signal may be sent, and releases the handle.
//!
//! The ghost transition functions `step` and `run` state what one event, and
//! a whole sequence of events, do to a supervisor; the laws in `laws` are
//! proved over them.

use vstd::prelude::*;

use crate::strategy::{LaunchConfig, LaunchStrategy, select_strategy, selects};

verus! {

/// The most readiness probes one run may issue after a spawn.
pub const MAX_READINESS_PROBES: u32 = 30;

/// The fixed sleep before each readiness probe, in milliseconds.
pub const POLL_INTERVAL_MS: u64 = 500;

/// What one supervision run ends with.
#[derive(Clone, Copy, Debug, PartialEq, Eq, Structural)]
pub enum SupervisionOutcome {
    /// The backend was live before any spawn attempt; nothing is owned.
    AlreadyRunning,
    /// A process was spawned and is owned, whether or not readiness was
    /// confirmed within the retry budget.
    Started,
    /// The spawn was rejected; nothing is owned.
    SpawnFailed,
}

/// Where the supervisor stands.
#[derive(Clone, Copy, Debug, PartialEq, Eq, Structural)]
pub enum Phase {
    /// Before the initial liveness probe has been answered.
    CheckingLiveness,
    /// The backend was already live: watch it, own nothing.
    Observing,
    /// The backend is not live: a spawn of the selected strategy is due.
    ReadyToSpawn,
    /// The spawn was rejected: nothing to own or poll.
    SpawnRefused,
    /// A poll-interval sleep is due before the next readiness probe.
    PollWaiting,
    /// A readiness probe has been requested and awaits its answer.
    PollProbing,
    /// The spawned process is owned and polling is over.
    Owned,
    /// The owned process was sent its termination signal; the handle is gone.
    Terminated,
}

/// What the host must do next.
#[derive(Clone, Copy, Debug, PartialEq, Eq, Structural)]
pub enum Action {
    /// Probe the liveness endpoint and report whether it answered success.
    Probe,
    /// Spawn the selected launch strategy and report whether it succeeded.
    Spawn,
    /// Sleep one poll interval and report back.
    Sleep,
    /// Supervision is over, with this outcome.
    Finish(SupervisionOutcome),
}

/// One answer from the host, as the ghost transition functions see it.
#[derive(Clone, Copy, Debug, PartialEq, Eq, Structural)]
pub enum Event {
    /// A liveness probe answered: success or not.
    ProbeResult(bool),
    /// A spawn attempt finished: success or not.
    SpawnResult(bool),
    /// A poll-interval sleep finished.
    Slept,
    /// The host is shutting down.
    Shutdown,
}

/// The supervisor's state: its phase, the strategy selected once at
/// construction, whether this instance spawned the backend (ownership),
/// whether a process handle is still held, and how many readiness probes
/// have been answered.
#[derive(Debug)]
pub struct Supervisor {
    /// Where the run stands.
    pub phase: Phase,
    /// The launch strategy, selected at construction and immutable.
    pub strategy: LaunchStrategy,
    /// Whether this instance started the backend. Only an owner may
    /// terminate it.
    pub started_by_app: bool,
    /// Whether a process handle is held. A handle exists if and only if this
    /// instance spawned the process and has not yet released it.
    pub has_handle: bool,
    /// Readiness probes answered so far in this run.
    pub probes_used: u32,
}

impl Supervisor {
    /// The supervisor's invariant: the handle and the ownership flag follow
    /// the phase, and the readiness budget is never overrun.
    pub open spec fn wf(self) -> bool {
        &&& self.probes_used <= MAX_READINESS_PROBES
        &&& match self.phase {
            Phase::CheckingLiveness => !self.started_by_app && !self.has_handle && self.probes_used == 0,
            Phase::Observing => !self.started_by_app && !self.has_handle,
            Phase::ReadyToSpawn => !self.started_by_app && !self.has_handle && self.probes_used == 0,
            Phase::SpawnRefused => !self.started_by_app && !self.has_handle,
            Phase::PollWaiting => self.started_by_app && self.has_handle && self.probes_used < MAX_READINESS_PROBES,
            Phase::PollProbing => self.started_by_app && self.has_handle && self.probes_used < MAX_READINESS_PROBES,
            Phase::Owned => self.started_by_app && self.has_handle,
            Phase::Terminated => self.started_by_app && !self.has_handle,
        }
    }

    /// What the host must do next in a given state.
    pub open spec fn spec_next_action(self) -> Action {
        match self.phase {
            Phase::CheckingLiveness => Action::Probe,
            Phase::Observing => Action::Finish(SupervisionOutcome::AlreadyRunning),
            Phase::ReadyToSpawn => Action::Spawn,
            Phase::SpawnRefused => Action::Finish(SupervisionOutcome::SpawnFailed),
            Phase::PollWaiting => Action::Sleep,
            Phase::PollProbing => Action::Probe,
            Phase::Owned => Action::Finish(SupervisionOutcome::Started),
            Phase::Terminated => Action::Finish(SupervisionOutcome::Started),
        }
    }

    /// Readiness probes issued so far: those answered, plus the one in
    /// flight while a probe awaits its answer.
    pub open spec fn spec_issued_probes(self) -> int {
        self.probes_used + if self.phase is PollProbing { 1int } else { 0int }
    }
}

/// What a probe answer does. Before any spawn, success means the backend was
/// already running: observe it and own nothing. During the readiness poll,
/// success ends the poll at once; a failure spends one probe of the budget,
/// and spending the last one ends the poll too (a degraded start, not an
/// error).
pub open spec fn spec_on_probe(s: Supervisor, ok: bool) -> Supervisor {
    if s.phase is CheckingLiveness {
        if ok {
            Supervisor { phase: Phase::Observing, ..s }
        } else {
            Supervisor { phase: Phase::ReadyToSpawn, ..s }
        }
    } else {
        if ok {
            Supervisor { phase: Phase::Owned, ..s }
        } else if s.probes_used + 1 == MAX_READINESS_PROBES {
            Supervisor { phase: Phase::Owned, probes_used: (s.probes_used + 1) as u32, ..s }
        } else {
            Supervisor { phase: Phase::PollWaiting, probes_used: (s.probes_used + 1) as u32, ..s }
        }
    }
}

/// What a spawn answer does. Success takes ownership and the handle at once,
/// before any readiness probe; failure owns nothing and ends the run.
pub open spec fn spec_on_spawn(s: Supervisor, ok: bool) -> Supervisor {
    if ok {
        Supervisor {
            phase: Phase::PollWaiting,
            started_by_app: true,
            has_handle: true,
            probes_used: 0,
            ..s
        }
    } else {
        Supervisor { phase: Phase::SpawnRefused, ..s }
    }
}

/// What the end of a poll-interval sleep does: the next readiness probe is due.
pub open spec fn spec_on_slept(s: Supervisor) -> Supervisor {
    Supervisor { phase: Phase::PollProbing, ..s }
}

/// What a shutdown does: when and only when a handle is held and this
/// instance owns the process, a termination signal is sent and the handle is
/// released; otherwise nothing changes.
pub open spec fn spec_shutdown(s: Supervisor) -> (Supervisor, bool) {
    if s.started_by_app && s.has_handle {
        (Supervisor { phase: Phase::Terminated, has_handle: false, ..s }, true)
    } else {
        (s, false)
    }
}

/// One event's effect. An answer that no phase awaits changes nothing; the
/// executable methods refuse such an answer by their preconditions.
pub open spec fn step(s: Supervisor, ev: Event) -> Supervisor {
    match ev {
        Event::ProbeResult(ok) => {
            if s.phase is CheckingLiveness || s.phase is PollProbing {
                spec_on_probe(s, ok)
            } else {
                s
            }
        },
        Event::SpawnResult(ok) => {
            if s.phase is ReadyToSpawn {
                spec_on_spawn(s, ok)
            } else {
                s
            }
        },
        Event::Slept => {
            if s.phase is PollWaiting {
                spec_on_slept(s)
            } else {
                s
            }
        },
        Event::Shutdown => spec_shutdown(s).0,
    }
}

/// A whole run: the events applied in order.
pub open spec fn run(s: Supervisor, evs: Seq<Event>) -> Supervisor
    decreases evs.len(),
{
    if evs.len() == 0 {
        s
    } else {
        run(step(s, evs[0]), evs.drop_first())
    }
}

impl Supervisor {
    /// Build a supervisor for one application run. The launch strategy is
    /// selected here, once, and never changes; nothing is owned yet and the
    /// initial liveness probe is due.
    pub fn new(c: LaunchConfig) -> (s: Supervisor)
        ensures
            s.wf(),
            s.phase is CheckingLiveness,
            !s.started_by_app,
            !s.has_handle,
            s.probes_used == 0,
            selects(c, s.strategy),
    {
        Supervisor {
            phase: Phase::CheckingLiveness,
            strategy: select_strategy(c),
            started_by_app: false,
            has_handle: false,
            probes_used: 0,
        }
    }

    /// What the host must do next.
    pub fn next_action(&self) -> (a: Action)
        ensures
            a == self.spec_next_action(),
    {
        match self.phase {
            Phase::CheckingLiveness => Action::Probe,
            Phase::Observing => Action::Finish(SupervisionOutcome::AlreadyRunning),
            Phase::ReadyToSpawn => Action::Spawn,
            Phase::SpawnRefused => Action::Finish(SupervisionOutcome::SpawnFailed),
            Phase::PollWaiting => Action::Sleep,
            Phase::PollProbing => Action::Probe,
            Phase::Owned => Action::Finish(SupervisionOutcome::Started),
            Phase::Terminated => Action::Finish(SupervisionOutcome::Started),
        }
    }

    /// The strategy a requested spawn must use.
    pub fn launch_strategy(&self) -> (s: &LaunchStrategy)
        ensures
            s == self.strategy,
    {
        &self.strategy
    }

    /// Report a liveness probe's answer.
    pub fn on_probe_result(&mut self, ok: bool)
        requires
            old(self).wf(),
            old(self).phase is CheckingLiveness || old(self).phase is PollProbing,
        ensures
            final(self).wf(),
            *final(self) == spec_on_probe(*old(self), ok),
    {
        match self.phase {
            Phase::CheckingLiveness => {
                if ok {
                    self.phase = Phase::Observing;
                } else {
                    self.phase = Phase::ReadyToSpawn;
                }
            },
            _ => {
                if ok {
                    self.phase = Phase::Owned;
                } else {
                    self.probes_used = self.probes_used + 1;
                    if self.probes_used == MAX_READINESS_PROBES {
                        self.phase = Phase::Owned;
                    } else {
                        self.phase = Phase::PollWaiting;
                    }
                }
            },
        }
    }

    /// Report a spawn attempt's answer. On success the ownership flag and
    /// the handle are taken at once, before any readiness probe.
    pub fn on_spawn_result(&mut self, ok: bool)
        requires
            old(self).wf(),
            old(self).phase is ReadyToSpawn,
        ensures
            final(self).wf(),
            *final(self) == spec_on_spawn(*old(self), ok),
    {
        if ok {
            self.phase = Phase::PollWaiting;
            self.started_by_app = true;
            self.has_handle = true;
            self.probes_used = 0;
        } else {
            self.phase = Phase::SpawnRefused;
        }
    }

    /// Report the end of a poll-interval sleep.
    pub fn on_slept(&mut self)
        requires
            old(self).wf(),
            old(self).phase is PollWaiting,
        ensures
            final(self).wf(),
            *final(self) == spec_on_slept(*old(self)),
    {
        self.phase = Phase::PollProbing;
    }

    /// Release the backend at host shutdown. Returns whether the host must
    /// send the termination signal: so when and only when a handle is held
    /// and this instance owns the process. Safe to call in any phase, any
    /// number of times.
    pub fn shutdown(&mut self) -> (kill: bool)
        requires
            old(self).wf(),
        ensures
            final(self).wf(),
            kill == (old(self).started_by_app && old(self).has_handle),
            *final(self) == spec_shutdown(*old(self)).0,
            kill == spec_shutdown(*old(self)).1,
    {
        if self.started_by_app && self.has_handle {
            self.phase = Phase::Terminated;
            self.has_handle = false;
            true
        } else {
            false
        }
    }
}

} // verus!

//! Laws of the supervisor, proved over the ghost transition functions.
//!
//! Each law quantifies over whole runs — arbitrary sequences of events — not
//! over single calls, so it holds of any host that drives the supervisor
//! through its methods.

use vstd::prelude::*;

use crate::supervisor::{
    Action, Event, Supervisor, SupervisionOutcome, MAX_READINESS_PROBES, run, spec_on_probe,
    spec_on_spawn, spec_shutdown, step,
};

verus! {

/// One event preserves the supervisor's invariant.
pub proof fn lemma_step_preserves_wf(s: Supervisor, ev: Event)
    requires
        s.wf(),
    ensures
        step(s, ev).wf(),
{
}

/// A whole run preserves the supervisor's invariant.
pub proof fn lemma_run_preserves_wf(s: Supervisor, evs: Seq<Event>)
    requires
        s.wf(),
    ensures
        run(s, evs).wf(),
    decreases evs.len(),
{
    if evs.len() > 0 {
        lemma_step_preserves_wf(s, evs[0]);
        lemma_run_preserves_wf(step(s, evs[0]), evs.drop_first());
    }
}

/// A phase whose work is over: no probe, spawn or sleep is ever requested
/// from it again.
pub open spec fn settled(s: Supervisor) -> bool {
    ||| s.phase is Observing
    ||| s.phase is SpawnRefused
    ||| s.phase is Owned
    ||| s.phase is Terminated
}

/// Settled phases are closed under events.
pub proof fn lemma_settled_closed(s: Supervisor, ev: Event)
    requires
        s.wf(),
        settled(s),
    ensures
        settled(step(s, ev)),
{
}

/// An observer stays an observer: no event moves the supervisor out of the
/// observing phase, takes ownership, or takes a handle.
pub proof fn lemma_observing_fixpoint(s: Supervisor, ev: Event)
    requires
        s.wf(),
        s.phase is Observing,
    ensures
        step(s, ev) == s,
{
}

/// If the initial liveness probe succeeds, the supervisor becomes a passive
/// observer for good: whatever events follow, it never requests a spawn,
/// never takes ownership, never holds a handle, and finishes with
/// `AlreadyRunning`.
pub proof fn lemma_liveness_preempts_spawn(s0: Supervisor, evs: Seq<Event>)
    requires
        s0.wf(),
        s0.phase is CheckingLiveness,
    ensures
        ({
            let t = run(spec_on_probe(s0, true), evs);
            &&& t.phase is Observing
            &&& !t.started_by_app
            &&& !t.has_handle
            &&& t.spec_next_action() == Action::Finish(SupervisionOutcome::AlreadyRunning)
        }),
    decreases evs.len(),
{
    let s1 = spec_on_probe(s0, true);
    if evs.len() > 0 {
        lemma_observing_fixpoint(s1, evs[0]);
        lemma_liveness_preempts_spawn(s0, evs.drop_first());
        assert(run(s1, evs) == run(step(s1, evs[0]), evs.drop_first()));
    }
}

/// A successful spawn takes the ownership flag at once, before any readiness
/// probe has been answered or issued.
pub proof fn lemma_spawn_takes_ownership(s: Supervisor)
    requires
        s.wf(),
        s.phase is ReadyToSpawn,
    ensures
        spec_on_spawn(s, true).started_by_app,
        spec_on_spawn(s, true).has_handle,
        spec_on_spawn(s, true).spec_issued_probes() == 0,
{
}

/// A shutdown sends the termination signal when and only when the ownership
/// flag is set, as long as the owned process has not already been released.
/// Without ownership, a shutdown changes nothing at all.
pub proof fn lemma_shutdown_iff_owner(s: Supervisor)
    requires
        s.wf(),
        !(s.phase is Terminated),
    ensures
        spec_shutdown(s).1 <==> s.started_by_app,
        !s.started_by_app ==> spec_shutdown(s).0 == s,
{
}

/// A shutdown never signals a process the supervisor does not own.
pub proof fn lemma_shutdown_needs_ownership(s: Supervisor)
    ensures
        spec_shutdown(s).1 ==> s.started_by_app,
        !s.started_by_app ==> spec_shutdown(s).0 == s,
{
}

/// Shutdown is idempotent: a second shutdown changes nothing, and two
/// shutdowns send at most one termination signal.
pub proof fn lemma_shutdown_idempotent(s: Supervisor)
    ensures
        spec_shutdown(spec_shutdown(s).0).0 == spec_shutdown(s).0,
        !(spec_shutdown(s).1 && spec_shutdown(spec_shutdown(s).0).1),
{
}

/// At no reachable state have more than 30 readiness probes been issued.
pub proof fn lemma_poll_budget(s: Supervisor)
    requires
        s.wf(),
    ensures
        s.spec_issued_probes() <= MAX_READINESS_PROBES,
{
}

/// Readiness probes answered along a run: how many probe results a run
/// consumes while a probe is in flight.
pub open spec fn readiness_probes_answered(s: Supervisor, evs: Seq<Event>) -> int
    decreases evs.len(),
{
    if evs.len() == 0 {
        0
    } else {
        (if s.phase is PollProbing && evs[0] is ProbeResult {
            1int
        } else {
            0int
        }) + readiness_probes_answered(step(s, evs[0]), evs.drop_first())
    }
}

/// A settled supervisor answers no readiness probe, ever.
pub proof fn lemma_settled_answers_no_probe(s: Supervisor, evs: Seq<Event>)
    requires
        s.wf(),
        settled(s),
    ensures
        readiness_probes_answered(s, evs) == 0,
    decreases evs.len(),
{
    if evs.len() > 0 {
        lemma_settled_closed(s, evs[0]);
        lemma_step_preserves_wf(s, evs[0]);
        lemma_settled_answers_no_probe(step(s, evs[0]), evs.drop_first());
    }
}

/// The readiness budget holds of whole runs: however the host drives the
/// supervisor, the probes already answered plus those any further events can
/// make it answer never pass 30.
pub proof fn lemma_readiness_probe_budget(s: Supervisor, evs: Seq<Event>)
    requires
        s.wf(),
    ensures
        s.probes_used + readiness_probes_answered(s, evs) <= MAX_READINESS_PROBES,
    decreases evs.len(),
{
    if evs.len() > 0 {
        let s1 = step(s, evs[0]);
        lemma_step_preserves_wf(s, evs[0]);
        if s.phase is PollProbing && evs[0] is ProbeResult {
            if settled(s1) {
                lemma_settled_answers_no_probe(s1, evs.drop_first());
            } else {
                lemma_readiness_probe_budget(s1, evs.drop_first());
            }
        } else {
            lemma_readiness_probe_budget(s1, evs.drop_first());
        }
    }
}

/// The poll stops at once on the first successful readiness probe: from then
/// on the supervisor requests no probe and no sleep, whatever events follow,
/// and it finishes with `Started`.
pub proof fn lemma_poll_stops_on_first_success(s: Supervisor, evs: Seq<Event>)
    requires
        s.wf(),
        s.phase is PollProbing,
    ensures
        ({
            let t = run(spec_on_probe(s, true), evs);
            &&& !(t.spec_next_action() is Probe)
            &&& !(t.spec_next_action() is Sleep)
            &&& !(t.spec_next_action() is Spawn)
            &&& t.started_by_app
        }),
{
    let s1 = spec_on_probe(s, true);
    lemma_settled_run(s1, evs);
}

/// From a settled state, every later state is settled too, so the next
/// action is always to finish; ownership and the probe count never change.
pub proof fn lemma_settled_run(s: Supervisor, evs: Seq<Event>)
    requires
        s.wf(),
        settled(s),
    ensures
        ({
            let t = run(s, evs);
            &&& t.wf()
            &&& settled(t)
            &&& t.spec_next_action() matches Action::Finish(_)
            &&& t.started_by_app == s.started_by_app
            &&& t.probes_used == s.probes_used
        }),
    decreases evs.len(),
{
    if evs.len() > 0 {
        lemma_settled_closed(s, evs[0]);
        lemma_step_preserves_wf(s, evs[0]);
        lemma_settled_run(step(s, evs[0]), evs.drop_first());
    }
}

/// Every readiness probe is spaced by a sleep: the only way into the
/// probe-in-flight phase is the end of a poll-interval sleep.
pub proof fn lemma_probe_follows_sleep(s: Supervisor, ev: Event)
    requires
        s.wf(),
        !(s.phase is PollProbing),
        step(s, ev).phase is PollProbing,
    ensures
        ev is Slept,
        s.phase is PollWaiting,
{
}

} // verus!

//! The scheduler's run guard and per-trigger decision. Cron triggers fire
//! concurrently and independently across projects; the guard is one flag
//! shared by all of them, so at most one walk-and-sync run is in flight
//! process-wide. A trigger that finds the guard busy is skipped outright —
//! not queued, not deferred — and only reported.

use vstd::prelude::*;

verus! {

/// What the scheduler does with one fired trigger.
#[derive(Clone, Copy, PartialEq, Eq, Structural, Debug)]
pub enum TriggerAction {
    StartRun,
    SkipRun,
}

/// The mutual-exclusion guard: records whether a run is in flight. The
/// caller holds it behind an exclusive handle, so taking the decision and
/// flipping the flag is one step, as a compare-and-set is: two triggers
/// can never both see an idle guard.
#[derive(Clone, Copy, PartialEq, Eq, Structural, Debug)]
pub struct RunGuard {
    pub running: bool,
}

/// What one fired trigger decides against a guard state: start a run
/// exactly when none is in flight, and leave the guard busy either way —
/// newly acquired, or untouched because it already was.
pub open spec fn spec_on_trigger(g: RunGuard) -> (TriggerAction, RunGuard) {
    if g.running {
        (TriggerAction::SkipRun, g)
    } else {
        (TriggerAction::StartRun, RunGuard { running: true })
    }
}

impl RunGuard {
    /// A fresh guard: no run is in flight.
    pub fn new() -> (g: RunGuard)
        ensures
            !g.running,
    {
        RunGuard { running: false }
    }

    /// Decides one fired trigger with compare-and-set semantics.
    pub fn on_trigger(&mut self) -> (a: TriggerAction)
        ensures
            (a, *final(self)) == spec_on_trigger(*old(self)),
            a == TriggerAction::StartRun <==> !old(self).running,
            final(self).running,
    {
        if self.running {
            TriggerAction::SkipRun
        } else {
            self.running = true;
            TriggerAction::StartRun
        }
    }

    /// Releases the guard when a run ends, however the run went: errors
    /// inside one run never keep later triggers from proceeding.
    pub fn finish_run(&mut self)
        ensures
            !final(self).running,
    {
        self.running = false;
    }
}

/// Scheduler mutual exclusion: while a run is in flight, a second trigger
/// for the same guard is skipped entirely and changes nothing — it starts
/// no walk and touches no state; and a trigger on an idle guard starts a
/// run and makes the guard busy, so any trigger firing before that run
/// finishes is skipped in turn.
pub proof fn lemma_trigger_mutual_exclusion(g: RunGuard)
    ensures
        g.running ==> spec_on_trigger(g) == (TriggerAction::SkipRun, g),
        !g.running ==> spec_on_trigger(g).0 == TriggerAction::StartRun && spec_on_trigger(
            g,
        ).1.running,
{
}

} // verus!

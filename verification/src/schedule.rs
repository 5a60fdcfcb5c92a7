use vstd::prelude::*;
use crate::machine::RunResult;
use crate::model::Trigger;

verus! {

/// The scheduling rule of one flow: run once, or run forever on a
/// timer with a pause of whole seconds between runs.
#[derive(Clone, Copy, Debug, PartialEq, Eq, Structural)]
pub enum TriggerSpec {
    Once,
    Interval(u64),
}

/// Reads a flow's declared trigger: "once" or "timer" (with an
/// interval defaulting to one second); any other type is refused.
pub fn trigger_spec_of(t: &Trigger) -> (r: Option<TriggerSpec>)
    ensures
        (match r {
            Some(TriggerSpec::Interval(d)) => t.trigger_type@ == "timer"@ && d == (match t
                .interval {
                Some(s) => s,
                None => 1u64,
            }),
            Some(TriggerSpec::Once) => t.trigger_type@ == "once"@,
            None => t.trigger_type@ != "timer"@ && t.trigger_type@ != "once"@,
        }),
{
    if t.trigger_type == "timer".to_owned() {
        let d = match t.interval {
            Some(s) => s,
            None => 1,
        };
        Some(TriggerSpec::Interval(d))
    } else if t.trigger_type == "once".to_owned() {
        Some(TriggerSpec::Once)
    } else {
        None
    }
}

/// The life of one flow's concurrency unit, as the scheduler sees it:
/// how many runs have started, and whether the unit is still alive.
/// The embedding program owns the thread and the clock; it asks
/// `begin_run` before each run and reports each completed run with
/// `on_run_finished`.
pub struct TriggerUnit {
    trigger: TriggerSpec,
    runs_started: u64,
    alive: bool,
}

impl TriggerUnit {
    pub closed spec fn spec_trigger(self) -> TriggerSpec {
        self.trigger
    }

    pub closed spec fn runs(self) -> u64 {
        self.runs_started
    }

    pub closed spec fn spec_alive(self) -> bool {
        self.alive
    }

    pub fn new(trigger: TriggerSpec) -> (u: TriggerUnit)
        ensures
            u.spec_trigger() == trigger,
            u.runs() == 0,
            u.spec_alive(),
    {
        TriggerUnit { trigger, runs_started: 0, alive: true }
    }

    pub fn alive(&self) -> (r: bool)
        ensures
            r == self.spec_alive(),
    {
        self.alive
    }

    pub fn runs_started(&self) -> (r: u64)
        ensures
            r == self.runs(),
    {
        self.runs_started
    }

    /// Asks whether another run may start; a live unit counts it.
    pub fn begin_run(&mut self) -> (go: bool)
        requires
            old(self).runs() < u64::MAX,
        ensures
            go == old(self).spec_alive(),
            final(self).spec_trigger() == old(self).spec_trigger(),
            final(self).spec_alive() == old(self).spec_alive(),
            final(self).runs() == if go {
                old(self).runs() + 1
            } else {
                old(self).runs() as int
            },
    {
        if self.alive {
            self.runs_started = self.runs_started + 1;
            true
        } else {
            false
        }
    }

    /// A run ended — however it ended. An interval unit stays alive
    /// and will run again after its pause: a run's own failure never
    /// stops subsequent scheduled runs. A once unit is done.
    pub fn on_run_finished(&mut self, outcome: RunResult)
        ensures
            final(self).spec_trigger() == old(self).spec_trigger(),
            final(self).runs() == old(self).runs(),
            final(self).spec_alive() == (old(self).spec_trigger() matches TriggerSpec::Interval(
                _,
            ) && old(self).spec_alive()),
    {
        let _ = outcome;
        match self.trigger {
            TriggerSpec::Interval(_) => {
            },
            TriggerSpec::Once => {
                self.alive = false;
            },
        }
    }
}

} // verus!

//! When systems run.

use std::time::Duration;
use vstd::prelude::*;

verus! {

/// Schedule determines when a system runs during the app lifecycle.
#[derive(Debug, Clone, Copy, PartialEq, Eq, Hash)]
pub enum Schedule {
    /// Runs before service workers spawn, blocks until complete.
    First,
    /// Runs after service workers spawn, blocks until complete.
    Startup,
    /// Spawns as background task, runs until shutdown.
    Run,
    /// Spawns as background task, runs repeatedly on interval.
    Fixed(Duration),
    /// Runs when shutdown triggered, blocks until complete.
    Shutdown,
    /// Runs after everything stopped, blocks until complete.
    Last,
}

/// The phases of the app lifecycle that start systems.
#[derive(Debug, Clone, Copy, PartialEq, Eq, Structural)]
pub enum Phase {
    First,
    Startup,
    Run,
    Fixed,
    Shutdown,
    Last,
}

impl Schedule {
    /// The phase that starts the systems on this schedule.
    pub open spec fn phase_spec(self) -> Phase {
        match self {
            Schedule::First => Phase::First,
            Schedule::Startup => Phase::Startup,
            Schedule::Run => Phase::Run,
            Schedule::Fixed(_) => Phase::Fixed,
            Schedule::Shutdown => Phase::Shutdown,
            Schedule::Last => Phase::Last,
        }
    }

    /// The phase that starts the systems on this schedule.
    #[verifier::when_used_as_spec(phase_spec)]
    pub fn phase(self) -> (phase: Phase)
        ensures
            phase == self.phase(),
    {
        match self {
            Schedule::First => Phase::First,
            Schedule::Startup => Phase::Startup,
            Schedule::Run => Phase::Run,
            Schedule::Fixed(_) => Phase::Fixed,
            Schedule::Shutdown => Phase::Shutdown,
            Schedule::Last => Phase::Last,
        }
    }
}

/// Each schedule has a phase of its own, and all intervals share one.
pub proof fn law_phases_tell_schedules_apart(schedule: Schedule, phase: Phase)
    requires
        call_ensures(Schedule::phase, (schedule,), phase),
    ensures
        phase is First <==> schedule is First,
        phase is Startup <==> schedule is Startup,
        phase is Run <==> schedule is Run,
        phase is Fixed <==> schedule is Fixed,
        phase is Shutdown <==> schedule is Shutdown,
        phase is Last <==> schedule is Last,
{
}

} // verus!

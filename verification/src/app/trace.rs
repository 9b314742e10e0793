//! What holds of a whole run, from its first step on.

use vstd::prelude::*;

use crate::app::{Action, AppView, Backend, Event, RunView, Stage};
#[allow(unused_imports)]
use crate::app::laws;
#[allow(unused_imports)]
use crate::shutdown;
use crate::shutdown::Shutdown;

verus! {

/// One step of a run: what came of the last action, the run after that, and the action that
/// follows.
#[verifier::reject_recursive_types(B)]
pub struct Step<B: Backend> {
    pub event: Event<B>,
    pub run: RunView<B>,
    pub action: Action<B>,
}

/// The run of `initial` after the steps `trace`.
pub open spec fn run_after<B: Backend>(initial: AppView<B>, trace: Seq<Step<B>>) -> RunView<B> {
    if trace.len() == 0 {
        RunView::start(initial)
    } else {
        trace.last().run
    }
}

/// Whether a run of `initial` can take the steps `trace`.
pub open spec fn is_trace<B: Backend>(initial: AppView<B>, trace: Seq<Step<B>>) -> bool
    decreases trace.len(),
{
    trace.len() > 0 ==> {
        let step = trace.last();
        let before = run_after(initial, trace.drop_last());
        &&& is_trace(initial, trace.drop_last())
        &&& before.accepts(step.event)
        &&& before.steps(step.event, step.run, step.action)
    }
}

/// Every run stays in good order, and each of its actions serves what was registered.
pub proof fn law_every_run_is_in_order<B: Backend>(initial: AppView<B>, trace: Seq<Step<B>>)
    requires
        initial.wf(),
        is_trace(initial, trace),
    ensures
        laws::run_of(initial, run_after(initial, trace)),
        trace.len() > 0 ==> laws::acts_for(initial, trace.last().run.stage, trace.last().action),
    decreases trace.len(),
{
    if trace.len() == 0 {
        laws::law_run_starts(initial);
    } else {
        let step = trace.last();
        law_every_run_is_in_order(initial, trace.drop_last());
        laws::law_run_steps(
            initial,
            run_after(initial, trace.drop_last()),
            step.event,
            step.run,
            step.action,
        );
    }
}

/// How often a run that takes the steps `trace` creates service `id`.
pub open spec fn creations<B: Backend>(trace: Seq<Step<B>>, id: u64) -> nat
    decreases trace.len(),
{
    if trace.len() == 0 {
        0
    } else {
        let before = creations(trace.drop_last(), id);
        match trace.last().action {
            Action::CreateService { id: created, .. } => if created == id {
                before + 1
            } else {
                before
            },
            _ => before,
        }
    }
}

/// A run creates every service that is registered once, before the startup hooks run, and no
/// other.
pub proof fn law_services_are_created_once<B: Backend>(
    initial: AppView<B>,
    trace: Seq<Step<B>>,
    id: u64,
)
    requires
        initial.wf(),
        is_trace(initial, trace),
    ensures
        creations(trace, id) <= 1,
        !initial.service_spawners.contains_key(id) ==> creations(trace, id) == 0,
        initial.service_spawners.contains_key(id) ==> creations(trace, id) == if run_after(
            initial,
            trace,
        ).app.service_spawners.contains_key(id) {
            0nat
        } else {
            1nat
        },
        initial.service_spawners.contains_key(id) && laws::rank(run_after(initial, trace).stage)
            >= laws::rank(Stage::RunningStartupHooks) ==> creations(trace, id) == 1,
    decreases trace.len(),
{
    law_every_run_is_in_order(initial, trace);
    if trace.len() > 0 {
        law_services_are_created_once(initial, trace.drop_last(), id);
        law_every_run_is_in_order(initial, trace.drop_last());
    }
}

/// One flag shuts an application down: once it is raised through one handle, it is raised for
/// every handle that the application gives out, then or later in its run, and for the wait that
/// ends the run.
pub proof fn law_shutdown_is_one_flag<B: Backend>(
    initial: AppView<B>,
    trace: Seq<Step<B>>,
    handle: Shutdown,
    later: Shutdown,
)
    requires
        initial.wf(),
        is_trace(initial, trace),
        handle.flag() == initial.shutdown_token,
        later.flag() == run_after(initial, trace).app.shutdown_token,
        shutdown::raised(handle.flag()),
    ensures
        shutdown::raised(later.flag()),
        trace.len() > 0 ==> match trace.last().action {
            Action::AwaitShutdown { shutdown: awaited } => shutdown::raised(awaited.flag()),
            _ => true,
        },
{
    law_every_run_is_in_order(initial, trace);
}

/// What the runtime may still be running.
pub struct Alive {
    /// Background systems, on an interval or not.
    pub systems: bool,
    /// Workers of services, or handlers that they spawned.
    pub workers: bool,
    /// Hooks of services.
    pub hooks: bool,
    /// Systems of a phase that is run to completion.
    pub phase: bool,
}

impl Alive {
    /// Nothing runs.
    pub open spec fn nothing() -> Self {
        Alive { systems: false, workers: false, hooks: false, phase: false }
    }

    /// What may run while `action` is performed.
    pub open spec fn during<B: Backend>(self, action: Action<B>) -> Self {
        match action {
            Action::SpawnBackground { .. } | Action::SpawnFixed { .. } => Alive {
                systems: true,
                ..self
            },
            Action::SpawnWorkers => Alive { workers: true, ..self },
            Action::RunStartupHooks | Action::RunShutdownHooks { .. } => Alive {
                hooks: true,
                ..self
            },
            Action::RunToCompletion { .. } => Alive { phase: true, ..self },
            _ => self,
        }
    }

    /// What may run once `event` came of `action`: what was awaited to its end runs no more, and
    /// what was only told to stop may still run.
    pub open spec fn after<B: Backend>(self, action: Action<B>, event: Event<B>) -> Self {
        match action {
            Action::RunToCompletion { .. } => Alive { phase: false, ..self },
            Action::RunStartupHooks | Action::RunShutdownHooks { .. } => if event is Done {
                Alive { hooks: false, ..self }
            } else {
                self
            },
            Action::DrainWorkers { .. } => if event is Done {
                Alive { workers: false, ..self }
            } else {
                self
            },
            Action::AwaitStop => Alive { systems: false, workers: false, hooks: false, ..self },
            _ => self,
        }
    }
}

/// What may run before the last action of `trace` is performed.
pub open spec fn alive_before<B: Backend>(trace: Seq<Step<B>>) -> Alive
    decreases trace.len(),
{
    if trace.len() <= 1 {
        Alive::nothing()
    } else {
        let earlier = trace.drop_last();
        alive_before(earlier).during(earlier.last().action).after(
            earlier.last().action,
            trace.last().event,
        )
    }
}

/// What may run while the last action of `trace` is performed.
pub open spec fn alive_during<B: Backend>(trace: Seq<Step<B>>) -> Alive {
    alive_before(trace).during(trace.last().action)
}

proof fn lemma_alive<B: Backend>(initial: AppView<B>, trace: Seq<Step<B>>)
    requires
        is_trace(initial, trace),
        trace.len() > 0,
    ensures
        ({
            let stage = trace.last().run.stage;
            let action = trace.last().action;
            let alive = alive_before(trace);
            &&& !alive.phase
            &&& action is RunToCompletion <==> (stage is RunningFirst || stage is RunningStartup
                || stage is RunningShutdown || stage is RunningLast)
            &&& action is AwaitStop <==> stage is AwaitingStop
            &&& action is Finish <==> stage is Finished
            &&& stage is RunningLast || stage is Finished ==> alive == Alive::nothing()
        }),
    decreases trace.len(),
{
    if trace.len() > 1 {
        lemma_alive(initial, trace.drop_last());
    }
}

/// `Last` systems start after everything has stopped: no background system, worker, handler, hook
/// or system of another phase may still run.
pub proof fn law_last_systems_start_after_everything_stopped<B: Backend>(
    initial: AppView<B>,
    trace: Seq<Step<B>>,
)
    requires
        is_trace(initial, trace),
        trace.len() > 0,
        trace.last().run.stage is RunningLast,
    ensures
        trace.last().action is RunToCompletion,
        alive_before(trace) == Alive::nothing(),
{
    lemma_alive(initial, trace);
}

/// A run is over only after its `Last` systems have ended, and then nothing runs.
pub proof fn law_run_ends_after_its_last_systems<B: Backend>(
    initial: AppView<B>,
    trace: Seq<Step<B>>,
)
    requires
        is_trace(initial, trace),
        trace.len() > 0,
        trace.last().action is Finish,
    ensures
        trace.len() > 1,
        trace[trace.len() - 2].run.stage is RunningLast,
        trace[trace.len() - 2].action is RunToCompletion,
        trace.last().event is Done,
        alive_during(trace) == Alive::nothing(),
{
    lemma_alive(initial, trace);
    if trace.len() > 1 {
        lemma_alive(initial, trace.drop_last());
    }
}

} // verus!

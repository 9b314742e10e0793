//! What a run does: which actions it takes, how often, in which order, and with what.

use vstd::prelude::*;

use crate::app::{
    Action, App, AppView, Backend, Event, FixedLaunch, Launch, Run, Stage, SystemDescriptor,
};
#[allow(unused_imports)]
use crate::app;
#[allow(unused_imports)]
use crate::app::laws;
#[allow(unused_imports)]
use crate::app::lifecycle;
#[allow(unused_imports)]
use crate::app::trace;
use crate::app::trace::Step;
use crate::config::{ServiceOverrides, SystemOverrides};
#[allow(unused_imports)]
use crate::config;
use crate::policy::RestartPolicy;
use crate::schedule::{Phase, Schedule};

verus! {

/// The kinds of actions.
pub enum Kind {
    CreateBus,
    CreateChannel,
    RunToCompletion,
    CreateService,
    RunStartupHooks,
    SpawnWorkers,
    SpawnBackground,
    SpawnFixed,
    AwaitShutdown,
    RunShutdownHooks,
    CloseChannels,
    AbortSystems,
    DrainWorkers,
    AbortWorkers,
    AbortHooks,
    AwaitStop,
    Finish,
    Abort,
}

/// The kind of an action.
pub open spec fn kind_of<B: Backend>(action: Action<B>) -> Kind {
    match action {
        Action::CreateBus { .. } => Kind::CreateBus,
        Action::CreateChannel { .. } => Kind::CreateChannel,
        Action::RunToCompletion { .. } => Kind::RunToCompletion,
        Action::CreateService { .. } => Kind::CreateService,
        Action::RunStartupHooks => Kind::RunStartupHooks,
        Action::SpawnWorkers => Kind::SpawnWorkers,
        Action::SpawnBackground { .. } => Kind::SpawnBackground,
        Action::SpawnFixed { .. } => Kind::SpawnFixed,
        Action::AwaitShutdown { .. } => Kind::AwaitShutdown,
        Action::RunShutdownHooks { .. } => Kind::RunShutdownHooks,
        Action::CloseChannels => Kind::CloseChannels,
        Action::AbortSystems => Kind::AbortSystems,
        Action::DrainWorkers { .. } => Kind::DrainWorkers,
        Action::AbortWorkers => Kind::AbortWorkers,
        Action::AbortHooks => Kind::AbortHooks,
        Action::AwaitStop => Kind::AwaitStop,
        Action::Finish => Kind::Finish,
        Action::Abort => Kind::Abort,
    }
}

/// How many of the actions of `trace` are of `kind`.
pub open spec fn times<B: Backend>(trace: Seq<Step<B>>, kind: Kind) -> nat
    decreases trace.len(),
{
    if trace.len() == 0 {
        0
    } else if kind_of(trace.last().action) == kind {
        times(trace.drop_last(), kind) + 1
    } else {
        times(trace.drop_last(), kind)
    }
}

/// Whether `action` makes the bus of event `id`.
pub open spec fn makes_bus<B: Backend>(action: Action<B>, id: u64) -> bool {
    action is CreateBus && action->CreateBus_id == id
}

/// Whether `action` makes the channel of service `id`.
pub open spec fn makes_channel<B: Backend>(action: Action<B>, id: u64) -> bool {
    action is CreateChannel && action->CreateChannel_id == id
}

/// How often the bus of event `id` is made in `trace`.
pub open spec fn buses_made<B: Backend>(trace: Seq<Step<B>>, id: u64) -> nat
    decreases trace.len(),
{
    if trace.len() == 0 {
        0
    } else if makes_bus(trace.last().action, id) {
        buses_made(trace.drop_last(), id) + 1
    } else {
        buses_made(trace.drop_last(), id)
    }
}

/// How often the channel of service `id` is made in `trace`.
pub open spec fn channels_made<B: Backend>(trace: Seq<Step<B>>, id: u64) -> nat
    decreases trace.len(),
{
    if trace.len() == 0 {
        0
    } else if makes_channel(trace.last().action, id) {
        channels_made(trace.drop_last(), id) + 1
    } else {
        channels_made(trace.drop_last(), id)
    }
}

/// The stage at which an action of `kind`, which every complete run takes once, is pending.
spec fn only_stage(kind: Kind) -> Stage {
    match kind {
        Kind::RunStartupHooks => Stage::RunningStartupHooks,
        Kind::SpawnWorkers => Stage::SpawningWorkers,
        Kind::SpawnBackground => Stage::SpawningBackground,
        Kind::SpawnFixed => Stage::SpawningFixed,
        Kind::AwaitShutdown => Stage::AwaitingShutdown,
        Kind::RunShutdownHooks => Stage::RunningShutdownHooks,
        Kind::CloseChannels => Stage::ClosingChannels,
        Kind::AbortSystems => Stage::AbortingSystems,
        Kind::DrainWorkers => Stage::DrainingWorkers,
        Kind::AbortHooks => Stage::AbortingHooks,
        Kind::AwaitStop => Stage::AwaitingStop,
        _ => Stage::Finished,
    }
}

/// Whether every complete run takes an action of `kind` once.
pub open spec fn taken_once(kind: Kind) -> bool {
    !(kind is CreateBus || kind is CreateChannel || kind is CreateService || kind is AbortWorkers
        || kind is RunToCompletion || kind is Abort)
}

/// Whether a run at `stage` has come to `point`.
spec fn reached(stage: Stage, point: Stage) -> bool {
    if stage is Aborted {
        laws::rank(point) <= laws::rank(Stage::RunningStartupHooks)
    } else {
        laws::rank(point) <= laws::rank(stage)
    }
}

/// The number of phases that a run at `stage` has begun to run to completion.
spec fn phases_begun(stage: Stage) -> nat {
    if !reached(stage, Stage::RunningFirst) {
        0
    } else if !reached(stage, Stage::RunningStartup) {
        1
    } else if !reached(stage, Stage::RunningShutdown) {
        2
    } else if !reached(stage, Stage::RunningLast) {
        3
    } else {
        4
    }
}

proof fn lemma_times<B: Backend>(initial: AppView<B>, trace: Seq<Step<B>>, kind: Kind)
    requires
        trace::is_trace(initial, trace),
        taken_once(kind),
    ensures
        times(trace, kind) == if reached(trace::run_after(initial, trace).stage, only_stage(kind)) {
            1nat
        } else {
            0nat
        },
    decreases trace.len(),
{
    if trace.len() > 0 {
        lemma_times(initial, trace.drop_last(), kind);
    }
}

proof fn lemma_phases<B: Backend>(initial: AppView<B>, trace: Seq<Step<B>>)
    requires
        trace::is_trace(initial, trace),
    ensures
        times(trace, Kind::RunToCompletion) == phases_begun(
            trace::run_after(initial, trace).stage,
        ),
    decreases trace.len(),
{
    if trace.len() > 0 {
        lemma_phases(initial, trace.drop_last());
    }
}

proof fn lemma_pending_action<B: Backend>(initial: AppView<B>, trace: Seq<Step<B>>)
    requires
        trace::is_trace(initial, trace),
        trace.len() > 0,
    ensures
        ({
            let stage = trace.last().run.stage;
            let action = trace.last().action;
            &&& !(stage is Starting)
            &&& action is CreateBus <==> stage is CreatingBus
            &&& action is CreateChannel <==> stage is CreatingChannel
            &&& action is CreateService <==> stage is CreatingService
            &&& stage is CreatingBus ==> action->CreateBus_id == stage->CreatingBus_0
            &&& stage is CreatingChannel ==> action->CreateChannel_id == stage->CreatingChannel_0
            &&& action is RunToCompletion <==> (stage is RunningFirst || stage is RunningStartup
                || stage is RunningShutdown || stage is RunningLast)
            &&& action is AbortWorkers <==> stage is AbortingWorkers
            &&& action is Abort <==> stage is Aborted
            &&& taken_once(kind_of(action)) ==> stage == only_stage(kind_of(action))
        }),
{
}

/// No run takes twice what is taken once: hooks, workers, background systems, the wait for
/// shutdown, the closing of channels, the aborts, the drain and the wait for the stop. No more
/// than four phases are run to completion.
pub proof fn law_no_action_comes_twice<B: Backend>(
    initial: AppView<B>,
    trace: Seq<Step<B>>,
    kind: Kind,
)
    requires
        trace::is_trace(initial, trace),
        !(kind is CreateBus || kind is CreateChannel || kind is CreateService || kind is AbortWorkers
            || kind is RunToCompletion || kind is Abort),
    ensures
        times(trace, kind) <= 1,
        times(trace, Kind::RunToCompletion) <= 4,
{
    lemma_times(initial, trace, kind);
    lemma_phases(initial, trace);
}

/// A run that finishes has left nothing out: it took each of these actions exactly once, and ran
/// four phases to completion.
pub proof fn law_finished_run_left_nothing_out<B: Backend>(
    initial: AppView<B>,
    trace: Seq<Step<B>>,
)
    requires
        trace::is_trace(initial, trace),
        trace.len() > 0,
        trace.last().action is Finish,
    ensures
        times(trace, Kind::RunStartupHooks) == 1,
        times(trace, Kind::SpawnWorkers) == 1,
        times(trace, Kind::SpawnBackground) == 1,
        times(trace, Kind::SpawnFixed) == 1,
        times(trace, Kind::AwaitShutdown) == 1,
        times(trace, Kind::RunShutdownHooks) == 1,
        times(trace, Kind::CloseChannels) == 1,
        times(trace, Kind::AbortSystems) == 1,
        times(trace, Kind::DrainWorkers) == 1,
        times(trace, Kind::AbortHooks) == 1,
        times(trace, Kind::AwaitStop) == 1,
        times(trace, Kind::Finish) == 1,
        times(trace, Kind::RunToCompletion) == 4,
        times(trace, Kind::Abort) == 0,
{
    lemma_pending_action(initial, trace);
    lemma_times(initial, trace, Kind::RunStartupHooks);
    lemma_times(initial, trace, Kind::SpawnWorkers);
    lemma_times(initial, trace, Kind::SpawnBackground);
    lemma_times(initial, trace, Kind::SpawnFixed);
    lemma_times(initial, trace, Kind::AwaitShutdown);
    lemma_times(initial, trace, Kind::RunShutdownHooks);
    lemma_times(initial, trace, Kind::CloseChannels);
    lemma_times(initial, trace, Kind::AbortSystems);
    lemma_times(initial, trace, Kind::DrainWorkers);
    lemma_times(initial, trace, Kind::AbortHooks);
    lemma_times(initial, trace, Kind::AwaitStop);
    lemma_times(initial, trace, Kind::Finish);
    lemma_phases(initial, trace);
    lemma_no_abort(initial, trace);
}

proof fn lemma_no_abort<B: Backend>(initial: AppView<B>, trace: Seq<Step<B>>)
    requires
        trace::is_trace(initial, trace),
        !(trace::run_after(initial, trace).stage is Aborted),
    ensures
        times(trace, Kind::Abort) == 0,
    decreases trace.len(),
{
    if trace.len() > 0 {
        lemma_pending_action(initial, trace);
        lemma_no_abort(initial, trace.drop_last());
    }
}

/// The first action of a run makes a bus or a channel, or runs the first systems.
pub proof fn law_run_begins<B: Backend>(initial: AppView<B>, trace: Seq<Step<B>>)
    requires
        trace::is_trace(initial, trace),
        trace.len() > 0,
    ensures
        trace[0].action is CreateBus || trace[0].action is CreateChannel
            || trace[0].action is RunToCompletion,
    decreases trace.len(),
{
    if trace.len() > 1 {
        law_run_begins(initial, trace.drop_last());
    }
}

/// Each action is followed by the next one in the order of the lifecycle, whatever came of it but
/// for a panic of a startup hook, which aborts the run, and a drain that takes too long, after
/// which the workers are aborted. Buses come before channels, channels before the first systems,
/// services before their hooks; and nothing follows the end.
pub proof fn law_actions_come_in_order<B: Backend>(initial: AppView<B>, trace: Seq<Step<B>>)
    requires
        trace::is_trace(initial, trace),
        trace.len() > 1,
    ensures
        ({
            let earlier = trace.drop_last();
            let action = earlier.last().action;
            let event = trace.last().event;
            let next = trace.last().action;
            let phases = times(earlier, Kind::RunToCompletion);
            &&& action is CreateBus ==> next is CreateBus || next is CreateChannel
                || next is RunToCompletion
            &&& action is CreateChannel ==> next is CreateChannel || next is RunToCompletion
            &&& action is RunToCompletion && phases == 1 ==> next is CreateService
                || next is RunStartupHooks
            &&& action is CreateService ==> next is CreateService || next is RunStartupHooks
            &&& action is RunStartupHooks && event is StartupPanicked ==> next is Abort
            &&& action is RunStartupHooks && !(event is StartupPanicked) ==> next is SpawnWorkers
            &&& action is SpawnWorkers ==> next is RunToCompletion
            &&& action is RunToCompletion && phases == 2 ==> next is SpawnBackground
            &&& action is SpawnBackground ==> next is SpawnFixed
            &&& action is SpawnFixed ==> next is AwaitShutdown
            &&& action is AwaitShutdown ==> next is RunToCompletion
            &&& action is RunToCompletion && phases == 3 ==> next is RunShutdownHooks
            &&& action is RunShutdownHooks ==> next is CloseChannels
            &&& action is CloseChannels ==> next is AbortSystems
            &&& action is AbortSystems ==> next is DrainWorkers
            &&& action is DrainWorkers && event is TimedOut ==> next is AbortWorkers
            &&& action is DrainWorkers && !(event is TimedOut) ==> next is AbortHooks
            &&& action is AbortWorkers ==> next is AbortHooks
            &&& action is AbortHooks ==> next is AwaitStop
            &&& action is AwaitStop ==> next is RunToCompletion
            &&& action is RunToCompletion && phases == 4 ==> next is Finish
            &&& action is RunToCompletion ==> 1 <= phases <= 4
            &&& !(action is Finish || action is Abort)
        }),
{
    lemma_pending_action(initial, trace);
    lemma_pending_action(initial, trace.drop_last());
    lemma_phases(initial, trace.drop_last());
}

/// Channels are closed before the workers drain, right after the shutdown hooks, and with or
/// without a timeout.
pub proof fn law_channels_close_before_workers_drain<B: Backend>(
    initial: AppView<B>,
    trace: Seq<Step<B>>,
)
    requires
        trace::is_trace(initial, trace),
        trace.len() > 0,
        trace.last().action is DrainWorkers,
    ensures
        trace.len() > 3,
        trace[trace.len() - 2].action is AbortSystems,
        trace[trace.len() - 3].action is CloseChannels,
        trace[trace.len() - 4].action is RunShutdownHooks,
{
    reveal_with_fuel(trace::is_trace, 4);
    lemma_pending_action(initial, trace);
    let first = trace.drop_last();
    assert(trace::run_after(initial, first).stage is AbortingSystems);
    lemma_pending_action(initial, first);
    let second = first.drop_last();
    assert(trace::run_after(initial, second).stage is ClosingChannels);
    lemma_pending_action(initial, second);
    let third = second.drop_last();
    assert(trace::run_after(initial, third).stage is RunningShutdownHooks);
    lemma_pending_action(initial, third);
}

/// What can come of the action that a run waits for: what was made, where something is made; a
/// panic, of startup hooks; a timeout, where one was chosen, of shutdown hooks and of the drain;
/// nothing, once the run is over; else that it is done.
pub proof fn law_events_that_can_come<B: Backend>(
    initial: AppView<B>,
    trace: Seq<Step<B>>,
    event: Event<B>,
)
    requires
        initial.wf(),
        trace::is_trace(initial, trace),
        trace.len() > 0,
    ensures
        ({
            let action = trace.last().action;
            let can = trace.last().run.accepts(event);
            let late = event is TimedOut && initial.shutdown_timeout is Some;
            &&& action is CreateBus ==> can == (event is BusCreated)
            &&& action is CreateChannel ==> can == (event is ChannelCreated)
            &&& action is RunStartupHooks ==> can == (event is Done || event is StartupPanicked)
            &&& action is RunShutdownHooks || action is DrainWorkers ==> can == (event is Done
                || late)
            &&& action is Finish || action is Abort ==> !can
            &&& !(action is CreateBus || action is CreateChannel || action is RunStartupHooks
                || action is RunShutdownHooks || action is DrainWorkers || action is Finish
                || action is Abort) ==> can == (event is Done)
        }),
{
    trace::law_every_run_is_in_order(initial, trace);
    lemma_pending_action(initial, trace);
}

/// Every event that is registered gets one bus, and every service one channel, before the first
/// systems run; and nothing else gets any.
pub proof fn law_buses_and_channels_are_made_once<B: Backend>(
    initial: AppView<B>,
    trace: Seq<Step<B>>,
    id: u64,
)
    requires
        initial.wf(),
        trace::is_trace(initial, trace),
    ensures
        buses_made(trace, id) <= 1,
        channels_made(trace, id) <= 1,
        !initial.event_creators.contains_key(id) ==> buses_made(trace, id) == 0,
        !initial.channel_creators.contains_key(id) ==> channels_made(trace, id) == 0,
        times(trace, Kind::RunToCompletion) > 0 && initial.event_creators.contains_key(id)
            ==> buses_made(trace, id) == 1,
        times(trace, Kind::RunToCompletion) > 0 && initial.channel_creators.contains_key(id)
            ==> channels_made(trace, id) == 1,
{
    trace::law_every_run_is_in_order(initial, trace);
    lemma_phases(initial, trace);
    lemma_made(initial, trace, id);
}

proof fn lemma_made<B: Backend>(initial: AppView<B>, trace: Seq<Step<B>>, id: u64)
    requires
        initial.wf(),
        trace::is_trace(initial, trace),
    ensures
        ({
            let run = trace::run_after(initial, trace);
            &&& buses_made(trace, id) == if initial.event_creators.contains_key(id)
                && !run.app.event_creators.contains_key(id) {
                1nat
            } else {
                0nat
            }
            &&& channels_made(trace, id) == if initial.channel_creators.contains_key(id)
                && !run.app.channel_creators.contains_key(id) {
                1nat
            } else {
                0nat
            }
        }),
    decreases trace.len(),
{
    if trace.len() > 0 {
        lemma_made(initial, trace.drop_last(), id);
        trace::law_every_run_is_in_order(initial, trace.drop_last());
    }
}

/// Whether a system is started as it was registered: its own spawner, with the number of workers
/// and the restart policy that were chosen for it, else the defaults, else 1 and `Never`.
pub open spec fn started_as_chosen<B: Backend>(
    defaults: SystemOverrides,
    system: SystemDescriptor<B>,
    launch: Launch<B>,
) -> bool {
    &&& launch.spawner == system.spawner
    &&& config::first_choice(launch.workers, system.overrides.workers, defaults.workers, 1)
    &&& config::first_choice(
        launch.restart,
        system.overrides.restart,
        defaults.restart,
        RestartPolicy::Never,
    )
}

/// Whether `launches` start exactly the systems that are registered on `schedule`, each as often as
/// it is registered and as it was chosen.
pub open spec fn starts_systems_on<B: Backend>(
    initial: AppView<B>,
    schedule: Schedule,
    launches: Seq<Launch<B>>,
) -> bool {
    exists|systems: Seq<SystemDescriptor<B>>|
        {
            &&& #[trigger] systems.to_multiset() == initial.systems.to_multiset().filter(
                |system: SystemDescriptor<B>| system.schedule == schedule,
            )
            &&& systems.len() == launches.len()
            &&& forall|i: int|
                0 <= i < launches.len() ==> started_as_chosen(
                    initial.system_defaults,
                    systems[i],
                    #[trigger] launches[i],
                )
        }
}

/// Whether `launches` start exactly the systems that are registered to run on an interval, each as
/// often as it is registered, as it was chosen, and on its own interval.
pub open spec fn starts_interval_systems<B: Backend>(
    initial: AppView<B>,
    launches: Seq<FixedLaunch<B>>,
) -> bool {
    exists|systems: Seq<SystemDescriptor<B>>|
        {
            &&& #[trigger] systems.to_multiset() == initial.systems.to_multiset().filter(
                |system: SystemDescriptor<B>| system.schedule is Fixed,
            )
            &&& systems.len() == launches.len()
            &&& forall|i: int|
                0 <= i < launches.len() ==> {
                    &&& systems[i].schedule == Schedule::Fixed((#[trigger] launches[i]).interval)
                    &&& started_as_chosen(initial.system_defaults, systems[i], launches[i].launch)
                }
        }
}

proof fn lemma_starts_systems_on<B: Backend>(
    initial: AppView<B>,
    phase: Phase,
    schedule: Schedule,
    launches: Seq<Launch<B>>,
)
    requires
        laws::launches_phase(initial, phase, launches),
        !(phase is Fixed),
        phase == schedule.phase(),
    ensures
        starts_systems_on(initial, schedule, launches),
{
    let systems = choose|systems: Seq<SystemDescriptor<B>>| #[trigger]
        systems.to_multiset() == app::systems_of_phase(initial.systems.to_multiset(), phase)
            && launches == lifecycle::launches_of(initial, systems);
    let wanted = initial.systems.to_multiset().filter(
        |system: SystemDescriptor<B>| system.schedule == schedule,
    );
    assert forall|system: SystemDescriptor<B>| #[trigger]
        systems.to_multiset().count(system) == wanted.count(system) by {
        assert(system.schedule.phase() == phase <==> system.schedule == schedule);
    }
    assert(systems.to_multiset() =~= wanted);
    assert forall|i: int| 0 <= i < launches.len() implies started_as_chosen(
        initial.system_defaults,
        systems[i],
        #[trigger] launches[i],
    ) by {
        assert(launches[i] == lifecycle::launch_of(initial, systems[i]));
        lemma_system_settings(systems[i].overrides, initial.system_defaults);
    }
}

proof fn lemma_starts_interval_systems<B: Backend>(
    initial: AppView<B>,
    systems: Seq<SystemDescriptor<B>>,
    launches: Seq<FixedLaunch<B>>,
)
    requires
        systems.to_multiset() == app::systems_of_phase(
            initial.systems.to_multiset(),
            Phase::Fixed,
        ),
        launches == lifecycle::fixed_launches_of(initial, systems),
    ensures
        starts_interval_systems(initial, launches),
{
    let wanted = initial.systems.to_multiset().filter(
        |system: SystemDescriptor<B>| system.schedule is Fixed,
    );
    assert forall|system: SystemDescriptor<B>| #[trigger]
        systems.to_multiset().count(system) == wanted.count(system) by {
        assert(system.schedule.phase() == Phase::Fixed <==> system.schedule is Fixed);
    }
    assert(systems.to_multiset() =~= wanted);
    assert forall|i: int| 0 <= i < launches.len() implies {
        &&& systems[i].schedule == Schedule::Fixed((#[trigger] launches[i]).interval)
        &&& started_as_chosen(initial.system_defaults, systems[i], launches[i].launch)
    } by {
        assert(launches[i] == lifecycle::fixed_launch_of(initial, systems[i]));
        lemma_system_settings(systems[i].overrides, initial.system_defaults);
        vstd::seq_lib::to_multiset_contains(systems, systems[i]);
        assert(systems.contains(systems[i]));
        assert(wanted.count(systems[i]) > 0);
    }
}

proof fn lemma_system_settings(own: SystemOverrides, defaults: SystemOverrides)
    ensures
        ({
            let config = config::system_config(own, defaults);
            &&& config::first_choice(config.workers, own.workers, defaults.workers, 1)
            &&& config::first_choice(
                config.restart,
                own.restart,
                defaults.restart,
                RestartPolicy::Never,
            )
        }),
{
}

/// Each phase starts exactly the systems that are registered for it, as they were chosen: the
/// first phase that is run to completion those on `First`, the second those on `Startup`, the
/// third those on `Shutdown` and the fourth those on `Last`; the background those on `Run`, and on
/// their intervals those on `Fixed`.
pub proof fn law_phases_start_their_systems<B: Backend>(
    initial: AppView<B>,
    trace: Seq<Step<B>>,
)
    requires
        initial.wf(),
        trace::is_trace(initial, trace),
        trace.len() > 0,
    ensures
        match trace.last().action {
            Action::RunToCompletion { systems } => {
                let phase = times(trace, Kind::RunToCompletion);
                &&& phase == 1 ==> starts_systems_on(initial, Schedule::First, systems@)
                &&& phase == 2 ==> starts_systems_on(initial, Schedule::Startup, systems@)
                &&& phase == 3 ==> starts_systems_on(initial, Schedule::Shutdown, systems@)
                &&& phase == 4 ==> starts_systems_on(initial, Schedule::Last, systems@)
            },
            Action::SpawnBackground { systems } => starts_systems_on(
                initial,
                Schedule::Run,
                systems@,
            ),
            Action::SpawnFixed { systems } => starts_interval_systems(initial, systems@),
            _ => true,
        },
{
    trace::law_every_run_is_in_order(initial, trace);
    lemma_pending_action(initial, trace);
    lemma_phases(initial, trace);
    let stage = trace.last().run.stage;
    match trace.last().action {
        Action::RunToCompletion { systems } => {
            let phase = choose|phase: Phase|
                stage == #[trigger] laws::stage_of(phase) && !(phase is Run || phase is Fixed)
                    && laws::launches_phase(initial, phase, systems@);
            let schedule = match phase {
                Phase::First => Schedule::First,
                Phase::Startup => Schedule::Startup,
                Phase::Shutdown => Schedule::Shutdown,
                _ => Schedule::Last,
            };
            lemma_starts_systems_on(initial, phase, schedule, systems@);
        },
        Action::SpawnBackground { systems } => {
            lemma_starts_systems_on(initial, Phase::Run, Schedule::Run, systems@);
        },
        Action::SpawnFixed { systems } => {
            let extracted = choose|extracted: Seq<SystemDescriptor<B>>| #[trigger]
                extracted.to_multiset() == app::systems_of_phase(
                    initial.systems.to_multiset(),
                    Phase::Fixed,
                ) && systems@ == lifecycle::fixed_launches_of(initial, extracted);
            lemma_starts_interval_systems(initial, extracted, systems@);
        },
        _ => {},
    }
}

/// Buses, channels and services are made by what was registered for them, with the settings that
/// were chosen for them, else the defaults, else the built-in ones. The wait for shutdown is on the
/// application's own flag, and both time limits are the one that was chosen.
pub proof fn law_actions_carry_what_was_chosen<B: Backend>(
    initial: AppView<B>,
    trace: Seq<Step<B>>,
)
    requires
        initial.wf(),
        trace::is_trace(initial, trace),
        trace.len() > 0,
    ensures
        match trace.last().action {
            Action::CreateBus { id, creator, capacity } => {
                let own = if initial.event_overrides.contains_key(id) {
                    initial.event_overrides[id].capacity
                } else {
                    None
                };
                &&& initial.event_creators.contains_key(id)
                &&& creator == initial.event_creators[id]
                &&& config::first_choice(capacity, own, initial.event_defaults.capacity, 32)
            },
            Action::CreateChannel { id, creator, capacity } => {
                let own = if initial.service_overrides.contains_key(id) {
                    initial.service_overrides[id].capacity
                } else {
                    None
                };
                &&& initial.channel_creators.contains_key(id)
                &&& creator == initial.channel_creators[id]
                &&& config::first_choice(capacity, own, initial.service_defaults.capacity, 32)
            },
            Action::CreateService { id, spawner, receiver, config: settings } => {
                let defaults = initial.service_defaults;
                let own = if initial.service_overrides.contains_key(id) {
                    initial.service_overrides[id]
                } else {
                    ServiceOverrides {
                        workers: None,
                        capacity: None,
                        concurrent: None,
                        restart: None,
                    }
                };
                &&& initial.service_spawners.contains_key(id)
                &&& spawner == initial.service_spawners[id]
                &&& config::first_choice(settings.workers, own.workers, defaults.workers, 1)
                &&& config::first_choice(settings.capacity, own.capacity, defaults.capacity, 32)
                &&& config::first_choice(
                    settings.restart,
                    own.restart,
                    defaults.restart,
                    RestartPolicy::Never,
                )
                &&& config::concurrency_chosen(
                    settings.concurrent,
                    own.concurrent,
                    defaults.concurrent,
                )
            },
            Action::AwaitShutdown { shutdown } => shutdown.flag() == initial.shutdown_token,
            Action::RunShutdownHooks { timeout } => timeout == initial.shutdown_timeout,
            Action::DrainWorkers { timeout } => timeout == initial.shutdown_timeout,
            _ => true,
        },
{
    trace::law_every_run_is_in_order(initial, trace);
}

/// A run keeps what was registered and chosen: at every point it has the resources, the settings,
/// the shutdown flag and the time limit that it began with.
pub proof fn law_run_changes_no_setting<B: Backend>(initial: AppView<B>, trace: Seq<Step<B>>)
    requires
        initial.wf(),
        trace::is_trace(initial, trace),
    ensures
        ({
            let app = trace::run_after(initial, trace).app;
            &&& app.resources == initial.resources
            &&& app.service_overrides == initial.service_overrides
            &&& app.event_overrides == initial.event_overrides
            &&& app.service_defaults == initial.service_defaults
            &&& app.system_defaults == initial.system_defaults
            &&& app.event_defaults == initial.event_defaults
            &&& app.shutdown_token == initial.shutdown_token
            &&& app.shutdown_timeout == initial.shutdown_timeout
        }),
{
    trace::law_every_run_is_in_order(initial, trace);
}

/// What came of making the channel of service `id` at position `j` of `trace`.
pub open spec fn channel_made<B: Backend>(
    trace: Seq<Step<B>>,
    j: int,
    id: u64,
    sender: B::Shared,
    receiver: B::Shared,
) -> bool {
    &&& 0 <= j < trace.len() - 1
    &&& makes_channel(trace[j].action, id)
    &&& trace[j + 1].event is ChannelCreated
    &&& trace[j + 1].event->sender == sender
    &&& trace[j + 1].event->receiver == receiver
}

proof fn lemma_channels_kept<B: Backend>(initial: AppView<B>, trace: Seq<Step<B>>, id: u64)
    requires
        initial.wf(),
        trace::is_trace(initial, trace),
    ensures
        ({
            let run = trace::run_after(initial, trace);
            &&& run.receivers.contains_key(id) ==> run.app.service_senders.contains_key(id)
                && exists|j: int| #[trigger]
                channel_made(trace, j, id, run.app.service_senders[id], run.receivers[id])
            &&& forall|j: int|
                0 <= j < trace.len() && makes_channel((#[trigger] trace[j]).action, id) ==> {
                    &&& !run.app.channel_creators.contains_key(id)
                    &&& run.stage == Stage::CreatingChannel(id) ==> j == trace.len() - 1
                    &&& j < trace.len() - 1 ==> run.app.service_senders.contains_key(id)
                        && run.app.service_senders[id] == trace[j + 1].event->sender
                }
        }),
    decreases trace.len(),
{
    if trace.len() > 0 {
        let earlier = trace.drop_last();
        let before = trace::run_after(initial, earlier);
        let run = trace::run_after(initial, trace);
        lemma_channels_kept(initial, earlier, id);
        trace::law_every_run_is_in_order(initial, earlier);
        trace::law_every_run_is_in_order(initial, trace);
        lemma_pending_action(initial, trace);
        if earlier.len() > 0 {
            lemma_pending_action(initial, earlier);
            assert(earlier.last() == trace[trace.len() - 2]);
        }
        if run.receivers.contains_key(id) {
            if before.receivers.contains_key(id) {
                let j = choose|j: int| #[trigger]
                    channel_made(
                        earlier,
                        j,
                        id,
                        before.app.service_senders[id],
                        before.receivers[id],
                    );
                assert(earlier[j] == trace[j] && earlier[j + 1] == trace[j + 1]);
                assert(makes_channel(earlier[j].action, id));
                assert(channel_made(
                    trace,
                    j,
                    id,
                    run.app.service_senders[id],
                    run.receivers[id],
                ));
            } else {
                assert(before.stage == Stage::CreatingChannel(id));
                assert(channel_made(
                    trace,
                    trace.len() - 2,
                    id,
                    run.app.service_senders[id],
                    run.receivers[id],
                ));
            }
        }
        assert forall|j: int|
            0 <= j < trace.len() && makes_channel((#[trigger] trace[j]).action, id) implies {
            &&& !run.app.channel_creators.contains_key(id)
            &&& run.stage == Stage::CreatingChannel(id) ==> j == trace.len() - 1
            &&& j < trace.len() - 1 ==> run.app.service_senders.contains_key(id)
                && run.app.service_senders[id] == trace[j + 1].event->sender
        } by {
            if j < earlier.len() {
                assert(earlier[j] == trace[j]);
                assert(makes_channel(earlier[j].action, id));
                if j < earlier.len() - 1 {
                    assert(earlier[j + 1] == trace[j + 1]);
                }
            }
        }
    }
}

/// A service is created with the receiving end of its own channel, and its sending end is found
/// under its number from then on.
pub proof fn law_service_gets_its_own_channel<B: Backend>(
    initial: AppView<B>,
    trace: Seq<Step<B>>,
)
    requires
        initial.wf(),
        trace::is_trace(initial, trace),
        trace.len() > 0,
    ensures
        trace.last().action matches Action::CreateService { id, receiver, .. } ==> exists|j: int|
            #[trigger]
            channel_made(
                trace,
                j,
                id,
                trace.last().run.app.service_senders[id],
                receiver,
            ),
{
    if let Action::CreateService { id, receiver, .. } = trace.last().action {
        let earlier = trace.drop_last();
        let before = trace::run_after(initial, earlier);
        lemma_channels_kept(initial, earlier, id);
        trace::law_every_run_is_in_order(initial, earlier);
        let j = choose|j: int| #[trigger]
            channel_made(earlier, j, id, before.app.service_senders[id], before.receivers[id]);
        assert(earlier[j] == trace[j] && earlier[j + 1] == trace[j + 1]);
        assert(channel_made(trace, j, id, trace.last().run.app.service_senders[id], receiver));
    }
}

/// The sending end of a channel that was made is found under the number of its service, at every
/// later point of the run.
pub proof fn law_senders_are_found<B: Backend>(
    initial: AppView<B>,
    trace: Seq<Step<B>>,
    j: int,
    id: u64,
    sender: B::Shared,
    receiver: B::Shared,
)
    requires
        initial.wf(),
        trace::is_trace(initial, trace),
        channel_made(trace, j, id, sender, receiver),
    ensures
        trace.last().run.app.service_senders.contains_key(id),
        trace.last().run.app.service_senders[id] == sender,
{
    lemma_channels_kept(initial, trace, id);
    assert(makes_channel(trace[j].action, id));
}

/// The bus that was made for an event is found under its number, at every later point of the run.
pub proof fn law_buses_are_found<B: Backend>(
    initial: AppView<B>,
    trace: Seq<Step<B>>,
    j: int,
    id: u64,
)
    requires
        initial.wf(),
        trace::is_trace(initial, trace),
        0 <= j < trace.len() - 1,
        makes_bus(trace[j].action, id),
    ensures
        trace[j + 1].event is BusCreated,
        trace.last().run.app.event_buses.contains_key(id),
        trace.last().run.app.event_buses[id] == trace[j + 1].event->bus,
{
    lemma_buses_kept(initial, trace, id);
    assert(makes_bus(trace[j].action, id));
}

proof fn lemma_buses_kept<B: Backend>(initial: AppView<B>, trace: Seq<Step<B>>, id: u64)
    requires
        initial.wf(),
        trace::is_trace(initial, trace),
    ensures
        ({
            let run = trace::run_after(initial, trace);
            forall|j: int|
                0 <= j < trace.len() && makes_bus((#[trigger] trace[j]).action, id) ==> {
                    &&& !run.app.event_creators.contains_key(id)
                    &&& run.stage == Stage::CreatingBus(id) ==> j == trace.len() - 1
                    &&& j < trace.len() - 1 ==> {
                        &&& trace[j + 1].event is BusCreated
                        &&& run.app.event_buses.contains_key(id)
                        &&& run.app.event_buses[id] == trace[j + 1].event->bus
                    }
                }
        }),
    decreases trace.len(),
{
    if trace.len() > 0 {
        let earlier = trace.drop_last();
        let run = trace::run_after(initial, trace);
        lemma_buses_kept(initial, earlier, id);
        trace::law_every_run_is_in_order(initial, earlier);
        lemma_pending_action(initial, trace);
        if earlier.len() > 0 {
            lemma_pending_action(initial, earlier);
            assert(earlier.last() == trace[trace.len() - 2]);
        }
        assert forall|j: int|
            0 <= j < trace.len() && makes_bus((#[trigger] trace[j]).action, id) implies {
            &&& !run.app.event_creators.contains_key(id)
            &&& run.stage == Stage::CreatingBus(id) ==> j == trace.len() - 1
            &&& j < trace.len() - 1 ==> {
                &&& trace[j + 1].event is BusCreated
                &&& run.app.event_buses.contains_key(id)
                &&& run.app.event_buses[id] == trace[j + 1].event->bus
            }
        } by {
            if j < earlier.len() {
                assert(earlier[j] == trace[j]);
                assert(makes_bus(earlier[j].action, id));
                if j < earlier.len() - 1 {
                    assert(earlier[j + 1] == trace[j + 1]);
                }
            }
        }
    }
}

/// A run begins with the application as it is, before its first action.
pub proof fn law_run_begins_with_its_application<B: Backend>(app: App<B>, run: Run<B>)
    requires
        call_ensures(App::<B>::run, (app,), run),
        app@.wf(),
    ensures
        run@.app == app@,
        run@.stage is Starting,
        run@.accepts(Event::Done),
        forall|id: u64| !(#[trigger] run@.receivers.contains_key(id)),
        run@ == trace::run_after(app@, Seq::empty()),
        run@.wf(),
{
}

/// The steps that a run takes are those of its traces: each call adds one to what has happened.
pub proof fn law_step_goes_on_with_the_trace<B: Backend>(
    initial: AppView<B>,
    trace: Seq<Step<B>>,
    run: &mut Run<B>,
    event: Event<B>,
    action: Action<B>,
)
    requires
        trace::is_trace(initial, trace),
        old(run)@ == trace::run_after(initial, trace),
        old(run)@.wf(),
        old(run)@.accepts(event),
        call_ensures(Run::<B>::step, (run, event), action),
    ensures
        ({
            let longer = trace.push(Step { event, run: final(run)@, action });
            &&& trace::is_trace(initial, longer)
            &&& final(run)@ == trace::run_after(initial, longer)
            &&& final(run)@.wf()
        }),
{
    let longer = trace.push(Step { event, run: final(run)@, action });
    assert(longer.drop_last() =~= trace);
}

/// A run says of an event whether it can come, and shows the stage that it is at and the
/// application that it runs.
pub proof fn law_run_is_shown<B: Backend>(
    run: Run<B>,
    event: Event<B>,
    accepted: bool,
    stage: Stage,
    app: &App<B>,
)
    requires
        call_ensures(Run::<B>::accepts, (&run, &event), accepted),
        call_ensures(Run::<B>::stage, (&run,), stage),
        call_ensures(Run::<B>::app, (&run,), app),
    ensures
        accepted == run@.accepts(event),
        stage == run@.stage,
        app@ == run@.app,
{
}

} // verus!

//! What holds of every application and of every run of one.

use vstd::multiset::Multiset;
use vstd::prelude::*;

use crate::app::{Action, AppView, Backend, Event, Launch, RunView, Stage, SystemDescriptor};
#[allow(unused_imports)]
use crate::app;
#[allow(unused_imports)]
use crate::app::lifecycle;
#[allow(unused_imports)]
use crate::config;
use crate::config::{EventOverrides, ServiceOverrides};
use crate::schedule::Phase;

verus! {

/// The place of a stage in the order of a run.
pub open spec fn rank(stage: Stage) -> nat {
    match stage {
        Stage::Starting => 0,
        Stage::CreatingBus(_) => 1,
        Stage::CreatingChannel(_) => 2,
        Stage::RunningFirst => 3,
        Stage::CreatingService(_) => 4,
        Stage::RunningStartupHooks => 5,
        Stage::SpawningWorkers => 6,
        Stage::RunningStartup => 7,
        Stage::SpawningBackground => 8,
        Stage::SpawningFixed => 9,
        Stage::AwaitingShutdown => 10,
        Stage::RunningShutdown => 11,
        Stage::RunningShutdownHooks => 12,
        Stage::ClosingChannels => 13,
        Stage::AbortingSystems => 14,
        Stage::DrainingWorkers => 15,
        Stage::AbortingWorkers => 16,
        Stage::AbortingHooks => 17,
        Stage::AwaitingStop => 18,
        Stage::RunningLast => 19,
        Stage::Finished => 20,
        Stage::Aborted => 21,
    }
}

/// The stage that starts the systems of `phase`.
pub open spec fn stage_of(phase: Phase) -> Stage {
    match phase {
        Phase::First => Stage::RunningFirst,
        Phase::Startup => Stage::RunningStartup,
        Phase::Run => Stage::SpawningBackground,
        Phase::Fixed => Stage::SpawningFixed,
        Phase::Shutdown => Stage::RunningShutdown,
        Phase::Last => Stage::RunningLast,
    }
}

/// Whether a run at `stage` has started the systems of `phase`.
pub open spec fn has_started(stage: Stage, phase: Phase) -> bool {
    if stage is Aborted {
        phase is First
    } else {
        rank(stage_of(phase)) <= rank(stage)
    }
}

/// The systems of `systems` that a run at `stage` has not started.
pub open spec fn not_started<B: Backend>(
    systems: Multiset<SystemDescriptor<B>>,
    stage: Stage,
) -> Multiset<SystemDescriptor<B>> {
    systems.filter(|system: SystemDescriptor<B>| !has_started(stage, system.schedule.phase()))
}

/// A run changes no setting and no resource.
pub open spec fn settings_kept<B: Backend>(initial: AppView<B>, current: AppView<B>) -> bool {
    &&& current.resources == initial.resources
    &&& current.service_overrides == initial.service_overrides
    &&& current.event_overrides == initial.event_overrides
    &&& current.service_defaults == initial.service_defaults
    &&& current.system_defaults == initial.system_defaults
    &&& current.event_defaults == initial.event_defaults
    &&& current.shutdown_token == initial.shutdown_token
    &&& current.shutdown_timeout == initial.shutdown_timeout
}

/// Whether `current` holds nothing but what `initial` holds.
pub open spec fn taken_from<V>(current: Map<u64, V>, initial: Map<u64, V>) -> bool {
    forall|id: u64| #[trigger]
        current.contains_key(id) ==> initial.contains_key(id) && current[id] == initial[id]
}

/// Every registered event has its bus, or waits for it.
pub open spec fn events_accounted<B: Backend>(initial: AppView<B>, run: RunView<B>) -> bool {
    &&& taken_from(run.app.event_creators, initial.event_creators)
    &&& forall|id: u64| #[trigger]
        initial.event_creators.contains_key(id) ==> run.app.event_creators.contains_key(id)
            || run.app.event_buses.contains_key(id) || run.stage == Stage::CreatingBus(id)
    &&& !(run.stage is Starting || run.stage is CreatingBus) ==> run.app.event_creators.dom() =~= Set::empty()
}

/// Every registered service has its channel, or waits for it; and it is created once.
pub open spec fn services_accounted<B: Backend>(initial: AppView<B>, run: RunView<B>) -> bool {
    &&& taken_from(run.app.channel_creators, initial.channel_creators)
    &&& taken_from(run.app.service_spawners, initial.service_spawners)
    &&& forall|id: u64| #[trigger]
        initial.channel_creators.contains_key(id) ==> run.app.channel_creators.contains_key(id)
            || run.app.service_senders.contains_key(id) || run.stage == Stage::CreatingChannel(id)
    &&& rank(run.stage) >= 5 ==> run.app.service_spawners.dom() =~= Set::empty()
}

/// What holds at every stage of a run of `initial`.
pub open spec fn run_of<B: Backend>(initial: AppView<B>, run: RunView<B>) -> bool {
    &&& run.wf()
    &&& settings_kept(initial, run.app)
    &&& run.app.systems.to_multiset() == not_started(initial.systems.to_multiset(), run.stage)
    &&& events_accounted(initial, run)
    &&& services_accounted(initial, run)
}

/// Whether `launches` are those of the systems that `phase` starts in `initial`, each once.
pub open spec fn launches_phase<B: Backend>(
    initial: AppView<B>,
    phase: Phase,
    launches: Seq<Launch<B>>,
) -> bool {
    exists|systems: Seq<SystemDescriptor<B>>| #[trigger]
        systems.to_multiset() == app::systems_of_phase(initial.systems.to_multiset(), phase)
            && launches == lifecycle::launches_of(initial, systems)
}

/// What the action that a run of `initial` waits for at `stage` has to do with what was
/// registered.
pub open spec fn acts_for<B: Backend>(
    initial: AppView<B>,
    stage: Stage,
    action: Action<B>,
) -> bool {
    match action {
        Action::CreateBus { id, creator, capacity } => {
            &&& stage == Stage::CreatingBus(id)
            &&& initial.event_creators.contains_key(id)
            &&& creator == initial.event_creators[id]
            &&& capacity == initial.event_config(id).capacity
        },
        Action::CreateChannel { id, creator, capacity } => {
            &&& stage == Stage::CreatingChannel(id)
            &&& initial.channel_creators.contains_key(id)
            &&& creator == initial.channel_creators[id]
            &&& capacity == initial.service_config(id).capacity
        },
        Action::CreateService { id, spawner, receiver, config } => {
            &&& stage == Stage::CreatingService(id)
            &&& initial.service_spawners.contains_key(id)
            &&& spawner == initial.service_spawners[id]
            &&& config == initial.service_config(id)
        },
        Action::RunToCompletion { systems } => exists|phase: Phase|
            stage == #[trigger] stage_of(phase) && !(phase is Run || phase is Fixed)
                && launches_phase(initial, phase, systems@),
        Action::SpawnBackground { systems } => {
            &&& stage == stage_of(Phase::Run)
            &&& launches_phase(initial, Phase::Run, systems@)
        },
        Action::SpawnFixed { systems } => {
            &&& stage == stage_of(Phase::Fixed)
            &&& exists|extracted: Seq<SystemDescriptor<B>>| #[trigger]
                extracted.to_multiset() == app::systems_of_phase(
                    initial.systems.to_multiset(),
                    Phase::Fixed,
                ) && systems@ == lifecycle::fixed_launches_of(initial, extracted)
        },
        Action::RunStartupHooks => stage is RunningStartupHooks,
        Action::SpawnWorkers => stage is SpawningWorkers,
        Action::AwaitShutdown { shutdown } => stage is AwaitingShutdown && shutdown.flag()
            == initial.shutdown_token,
        Action::RunShutdownHooks { timeout } => stage is RunningShutdownHooks && timeout
            == initial.shutdown_timeout,
        Action::CloseChannels => stage is ClosingChannels,
        Action::AbortSystems => stage is AbortingSystems,
        Action::DrainWorkers { timeout } => stage is DrainingWorkers && timeout
            == initial.shutdown_timeout,
        Action::AbortWorkers => stage is AbortingWorkers,
        Action::AbortHooks => stage is AbortingHooks,
        Action::AwaitStop => stage is AwaitingStop,
        Action::Finish => stage is Finished,
        Action::Abort => stage is Aborted,
    }
}

/// What is registered and not taken up yet.
pub open spec fn pending<B: Backend>(run: RunView<B>) -> nat {
    run.app.event_creators.dom().len() + run.app.channel_creators.dom().len()
        + run.app.service_spawners.dom().len()
}

proof fn lemma_starts_phase<B: Backend>(
    initial: AppView<B>,
    before: Stage,
    run: RunView<B>,
    phase: Phase,
)
    requires
        settings_kept(initial, run.app),
        run.app.systems.to_multiset() == not_started(initial.systems.to_multiset(), before),
        !has_started(before, phase),
        forall|other: Phase|
            other != phase ==> #[trigger] has_started(before, other) == has_started(
                stage_of(phase),
                other,
            ),
    ensures
        ({
            let post = run.without(phase, stage_of(phase));
            &&& settings_kept(initial, post.app)
            &&& post.app.systems.to_multiset() == not_started(
                initial.systems.to_multiset(),
                stage_of(phase),
            )
            &&& run.starting(phase).to_multiset() == app::systems_of_phase(
                initial.systems.to_multiset(),
                phase,
            )
            &&& lifecycle::launches_of(run.app, run.starting(phase)) == lifecycle::launches_of(
                initial,
                run.starting(phase),
            )
            &&& lifecycle::fixed_launches_of(run.app, run.starting(phase))
                == lifecycle::fixed_launches_of(initial, run.starting(phase))
        }),
{
    app::law_extraction_is_exact(run.app.systems, phase);
    let registered = initial.systems.to_multiset();
    assert(run.starting(phase).to_multiset() =~= app::systems_of_phase(registered, phase));
    assert(run.without(phase, stage_of(phase)).app.systems.to_multiset() =~= not_started(
        registered,
        stage_of(phase),
    )) by {
        assert forall|system: SystemDescriptor<B>|
            app::systems_of_other_phases(not_started(registered, before), phase).count(system)
                == not_started(registered, stage_of(phase)).count(system) by {
            let own = system.schedule.phase();
            assert(own != phase ==> has_started(before, own) == has_started(stage_of(phase), own));
        }
    }
    assert(lifecycle::launches_of(run.app, run.starting(phase)) =~= lifecycle::launches_of(
        initial,
        run.starting(phase),
    ));
    assert(lifecycle::fixed_launches_of(run.app, run.starting(phase))
        =~= lifecycle::fixed_launches_of(initial, run.starting(phase)));
}

proof fn lemma_none_started<B: Backend>(initial: AppView<B>, before: Stage, after: Stage)
    requires
        forall|phase: Phase| #[trigger] has_started(before, phase) == has_started(after, phase),
    ensures
        not_started(initial.systems.to_multiset(), before) == not_started(
            initial.systems.to_multiset(),
            after,
        ),
{
    let registered = initial.systems.to_multiset();
    assert forall|system: SystemDescriptor<B>|
        not_started(registered, before).count(system) == not_started(registered, after).count(
            system,
        ) by {
        assert(has_started(before, system.schedule.phase()) == has_started(
            after,
            system.schedule.phase(),
        ));
    }
    assert(not_started(registered, before) =~= not_started(registered, after));
}

proof fn lemma_enters_channels<B: Backend>(
    initial: AppView<B>,
    run: RunView<B>,
    post: RunView<B>,
    action: Action<B>,
)
    requires
        run_of(initial, run.at(Stage::Starting)),
        run.app.event_creators.dom() =~= Set::empty(),
        forall|id: u64| #[trigger]
            initial.event_creators.contains_key(id) ==> run.app.event_buses.contains_key(id),
        run.enters_channels(post, action),
    ensures
        run_of(initial, post),
        acts_for(initial, post.stage, action),
        rank(post.stage) > 2 || post.stage is CreatingChannel && pending(post) < pending(run),
{
    if run.app.channel_creators.dom() =~= Set::empty() {
        lemma_starts_phase(initial, Stage::Starting, run, Phase::First);
    } else {
        lemma_none_started(initial, Stage::Starting, post.stage);
        assert(post.wf());
        assert(events_accounted(initial, post));
        assert(services_accounted(initial, post));
    }
}

proof fn lemma_enters_buses<B: Backend>(
    initial: AppView<B>,
    run: RunView<B>,
    post: RunView<B>,
    action: Action<B>,
)
    requires
        run_of(initial, run.at(Stage::Starting)),
        forall|id: u64| #[trigger]
            initial.event_creators.contains_key(id) ==> run.app.event_creators.contains_key(id)
                || run.app.event_buses.contains_key(id),
        run.enters_buses(post, action),
    ensures
        run_of(initial, post),
        acts_for(initial, post.stage, action),
        rank(post.stage) > 1 || post.stage is CreatingBus && pending(post) < pending(run),
{
    if run.app.event_creators.dom() =~= Set::empty() {
        lemma_enters_channels(initial, run, post, action);
    } else {
        lemma_none_started(initial, Stage::Starting, post.stage);
        assert(post.wf());
        assert forall|id: u64| #[trigger] initial.event_creators.contains_key(id) implies (
        post.app.event_creators.contains_key(id) || post.app.event_buses.contains_key(id)
            || post.stage == Stage::CreatingBus(id)) by {
            assert(run.app.event_creators.contains_key(id) || run.app.event_buses.contains_key(id));
        }
        assert(events_accounted(initial, post));
        assert(services_accounted(initial, post));
    }
}

/// A run of an application starts in good order.
pub proof fn law_run_starts<B: Backend>(initial: AppView<B>)
    requires
        initial.wf(),
    ensures
        run_of(initial, RunView::start(initial)),
{
    assert(not_started(initial.systems.to_multiset(), Stage::Starting)
        =~= initial.systems.to_multiset());
}

proof fn lemma_enters_services<B: Backend>(
    initial: AppView<B>,
    run: RunView<B>,
    post: RunView<B>,
    action: Action<B>,
)
    requires
        run_of(initial, run),
        run.stage is RunningFirst || run.stage is CreatingService,
        run.enters_services(post, action),
    ensures
        run_of(initial, post),
        acts_for(initial, post.stage, action),
        rank(post.stage) > 4 || post.stage is CreatingService && pending(post) < pending(run),
{
    lemma_none_started(initial, run.stage, post.stage);
    assert(post.wf());
    assert(events_accounted(initial, post));
    assert(services_accounted(initial, post));
}

/// Every step of a run keeps it in good order, takes up only what was registered, under the
/// settings that were chosen, and brings the run forward: it goes on to a later stage, or stays
/// where it is and has fewer things to take up.
pub proof fn law_run_steps<B: Backend>(
    initial: AppView<B>,
    pre: RunView<B>,
    event: Event<B>,
    post: RunView<B>,
    action: Action<B>,
)
    requires
        run_of(initial, pre),
        pre.accepts(event),
        pre.steps(event, post, action),
    ensures
        run_of(initial, post),
        acts_for(initial, post.stage, action),
        rank(post.stage) > rank(pre.stage) || rank(post.stage) == rank(pre.stage) && pending(post)
            < pending(pre),
{
    match pre.stage {
        Stage::Starting => {
            lemma_enters_buses(initial, pre, post, action);
        },
        Stage::CreatingBus(id) => {
            let made = RunView {
                app: AppView {
                    event_buses: pre.app.event_buses.insert(id, event->bus),
                    ..pre.app
                },
                ..pre
            };
            lemma_none_started(initial, pre.stage, Stage::Starting);
            lemma_enters_buses(initial, made, post, action);
        },
        Stage::CreatingChannel(id) => {
            let made = RunView {
                app: AppView {
                    service_senders: pre.app.service_senders.insert(id, event->sender),
                    ..pre.app
                },
                receivers: pre.receivers.insert(id, event->receiver),
                ..pre
            };
            lemma_none_started(initial, pre.stage, Stage::Starting);
            lemma_enters_channels(initial, made, post, action);
        },
        Stage::RunningFirst | Stage::CreatingService(_) => {
            lemma_enters_services(initial, pre, post, action);
        },
        Stage::SpawningWorkers => {
            lemma_starts_phase(initial, pre.stage, pre, Phase::Startup);
        },
        Stage::RunningStartup => {
            lemma_starts_phase(initial, pre.stage, pre, Phase::Run);
        },
        Stage::SpawningBackground => {
            lemma_starts_phase(initial, pre.stage, pre, Phase::Fixed);
        },
        Stage::AwaitingShutdown => {
            lemma_starts_phase(initial, pre.stage, pre, Phase::Shutdown);
        },
        Stage::AwaitingStop => {
            lemma_starts_phase(initial, pre.stage, pre, Phase::Last);
        },
        _ => {
            lemma_none_started(initial, pre.stage, post.stage);
        },
    }
}

/// The two ends of a channel stay paired: the sending end is found under the number of its service,
/// and the receiving end is kept until that very service is created with it. The bus of an event
/// is found under the number of the event. What was made once stays as it is.
pub proof fn law_made_things_reach_their_owners<B: Backend>(
    pre: RunView<B>,
    event: Event<B>,
    post: RunView<B>,
    action: Action<B>,
)
    requires
        pre.wf(),
        pre.accepts(event),
        pre.steps(event, post, action),
    ensures
        pre.stage matches Stage::CreatingBus(id) ==> {
            &&& post.app.event_buses.contains_key(id)
            &&& post.app.event_buses[id] == event->bus
        },
        pre.stage matches Stage::CreatingChannel(id) ==> {
            &&& post.app.service_senders.contains_key(id)
            &&& post.app.service_senders[id] == event->sender
            &&& post.receivers.contains_key(id)
            &&& post.receivers[id] == event->receiver
        },
        forall|id: u64| #[trigger]
            pre.receivers.contains_key(id) ==> {
                ||| post.receivers.contains_key(id) && post.receivers[id] == pre.receivers[id]
                ||| action matches Action::CreateService { id: created, receiver, .. } && created == id
                    && receiver == pre.receivers[id]
            },
        forall|id: u64| #[trigger]
            pre.app.event_buses.contains_key(id) && pre.stage != Stage::CreatingBus(id) ==> {
                &&& post.app.event_buses.contains_key(id)
                &&& post.app.event_buses[id] == pre.app.event_buses[id]
            },
        forall|id: u64| #[trigger]
            pre.app.service_senders.contains_key(id) && pre.stage != Stage::CreatingChannel(id) ==> {
                &&& post.app.service_senders.contains_key(id)
                &&& post.app.service_senders[id] == pre.app.service_senders[id]
            },
{
}

/// A run that is finished has started every system, created every service, and made the bus of
/// every event and the channel of every service.
pub proof fn law_finished_run_is_complete<B: Backend>(initial: AppView<B>, run: RunView<B>)
    requires
        run_of(initial, run),
        run.stage is Finished,
    ensures
        run.app.systems.len() == 0,
        run.app.service_spawners.dom() =~= Set::empty(),
        forall|id: u64| #[trigger]
            initial.event_creators.contains_key(id) ==> run.app.event_buses.contains_key(id),
        forall|id: u64| #[trigger]
            initial.channel_creators.contains_key(id) ==> run.app.service_senders.contains_key(id),
{
    assert(run.app.systems.to_multiset() =~= Multiset::empty()) by {
        assert forall|system: SystemDescriptor<B>|
            not_started(initial.systems.to_multiset(), run.stage).count(system) == 0 by {
            assert(has_started(run.stage, system.schedule.phase()));
        }
    }
    vstd::seq_lib::to_multiset_len(run.app.systems);
}

/// Registering or configuring one service leaves the settings of every other as they are.
pub proof fn law_service_settings_are_local<B: Backend>(
    app: AppView<B>,
    id: u64,
    channel: B::ChannelCreator,
    spawner: B::ServiceSpawner,
    overrides: ServiceOverrides,
    other: u64,
)
    requires
        other != id,
    ensures
        app.with_service(id, channel, spawner, overrides).service_config(other)
            == app.service_config(other),
        app.with_service(id, channel, spawner, overrides).service_config(id)
            == config::service_config(overrides, app.service_defaults),
{
}

/// Registering or configuring one event leaves the settings of every other as they are.
pub proof fn law_event_settings_are_local<B: Backend>(
    app: AppView<B>,
    id: u64,
    creator: B::EventCreator,
    overrides: EventOverrides,
    other: u64,
)
    requires
        other != id,
    ensures
        app.with_event(id, creator, overrides).event_config(other) == app.event_config(other),
        app.with_event(id, creator, overrides).event_config(id) == config::event_config(
            overrides,
            app.event_defaults,
        ),
{
}

/// Resources that were registered are found under their numbers, and no other resource changes.
pub proof fn law_resources_are_found<B: Backend>(
    app: AppView<B>,
    resources: Seq<(u64, B::Shared)>,
)
    requires
        forall|i: int, j: int|
            0 <= i < j < resources.len() ==> (#[trigger] resources[i]).0 != (
            #[trigger] resources[j]).0,
    ensures
        forall|i: int|
            0 <= i < resources.len() ==> {
                &&& app.with_resources(resources).resources.contains_key(
                    (#[trigger] resources[i]).0,
                )
                &&& app.with_resources(resources).resources[resources[i].0] == resources[i].1
            },
        forall|id: u64|
            (forall|i: int| 0 <= i < resources.len() ==> (#[trigger] resources[i]).0 != id) ==> {
                &&& (#[trigger] app.with_resources(resources).resources.contains_key(id))
                    == app.resources.contains_key(id)
                &&& app.with_resources(resources).resources[id] == app.resources[id]
            },
    decreases resources.len(),
{
    if resources.len() > 0 {
        let front = resources.drop_last();
        assert forall|i: int, j: int| 0 <= i < j < front.len() implies (#[trigger] front[i]).0 != (
        #[trigger] front[j]).0 by {
            assert(resources[i].0 != resources[j].0);
        }
        law_resources_are_found(app, front);
        assert forall|i: int| 0 <= i < resources.len() implies {
            &&& app.with_resources(resources).resources.contains_key((#[trigger] resources[i]).0)
            &&& app.with_resources(resources).resources[resources[i].0] == resources[i].1
        } by {
            if i < front.len() {
                assert(front[i] == resources[i]);
                assert(resources[i].0 != resources[resources.len() - 1].0);
            }
        }
        assert forall|id: u64|
            (forall|i: int| 0 <= i < resources.len() ==> (#[trigger] resources[i]).0 != id) implies {
            &&& (#[trigger] app.with_resources(resources).resources.contains_key(id))
                == app.resources.contains_key(id)
            &&& app.with_resources(resources).resources[id] == app.resources[id]
        } by {
            assert(resources[resources.len() - 1].0 != id);
            assert forall|i: int| 0 <= i < front.len() implies (#[trigger] front[i]).0 != id by {
                assert(resources[i].0 != id);
            }
            assert(app.with_resources(front).resources.contains_key(id)
                == app.resources.contains_key(id));
        }
    }
}

/// The system that is configured under a number is the first that was registered with it.
pub proof fn law_first_system_is_configured<B: Backend>(
    systems: Seq<SystemDescriptor<B>>,
    id: u64,
)
    ensures
        0 <= app::first_with_id(systems, id) <= systems.len(),
        app::first_with_id(systems, id) < systems.len() ==> systems[app::first_with_id(
            systems,
            id,
        )].id == id,
        forall|i: int|
            0 <= i < app::first_with_id(systems, id) ==> (#[trigger] systems[i]).id != id,
    decreases systems.len(),
{
    if systems.len() > 0 && systems[0].id != id {
        let rest = systems.drop_first();
        law_first_system_is_configured(rest, id);
        assert forall|i: int| 0 <= i < app::first_with_id(systems, id) implies (
        #[trigger] systems[i]).id != id by {
            if i > 0 {
                assert(systems[i] == rest[i - 1]);
            }
        }
    }
}

} // verus!

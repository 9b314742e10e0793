//! The run of an application, as a machine: each step takes what came of the last action and
//! says which action comes next.

use std::collections::HashMap;
use std::time::Duration;
use vstd::prelude::*;

use crate::app::{App, AppView, Backend, SystemDescriptor};
#[allow(unused_imports)]
use crate::app;
use crate::config::WorkerConfig;
use crate::policy::RestartPolicy;
use crate::schedule::{Phase, Schedule};
use crate::shutdown::Shutdown;

verus! {

broadcast use vstd::std_specs::hash::group_hash_axioms;

/// A system to start: how many runs of it, and the policy that each is supervised by.
pub struct Launch<B: Backend> {
    pub spawner: B::SystemSpawner,
    pub workers: usize,
    pub restart: RestartPolicy,
}

/// A system to start on an interval.
pub struct FixedLaunch<B: Backend> {
    pub interval: Duration,
    pub launch: Launch<B>,
}

#[allow(inconsistent_fields)]
/// What the runtime does next.
pub enum Action<B: Backend> {
    /// Make the bus of event `id`.
    CreateBus { id: u64, creator: B::EventCreator, capacity: usize },
    /// Make the channel of service `id`.
    CreateChannel { id: u64, creator: B::ChannelCreator, capacity: usize },
    /// Run these systems, and wait until all are complete.
    RunToCompletion { systems: Vec<Launch<B>> },
    /// Create service `id` and keep its hooks and workers.
    CreateService { id: u64, spawner: B::ServiceSpawner, receiver: B::Shared, config: WorkerConfig },
    /// Run the startup hooks of all services, in parallel, and wait for them.
    RunStartupHooks,
    /// Spawn the workers of all services.
    SpawnWorkers,
    /// Spawn these systems as background tasks.
    SpawnBackground { systems: Vec<Launch<B>> },
    /// Spawn these systems as background tasks that run on an interval.
    SpawnFixed { systems: Vec<FixedLaunch<B>> },
    /// Wait until shutdown is triggered.
    AwaitShutdown { shutdown: Shutdown },
    /// Run the shutdown hooks of all services, in parallel, and wait for them, no longer than
    /// the timeout.
    RunShutdownHooks { timeout: Option<Duration> },
    /// Close the channels of all services.
    CloseChannels,
    /// Abort the background systems.
    AbortSystems,
    /// Wait until the workers are done, and the handlers that they spawned, no longer than the
    /// timeout.
    DrainWorkers { timeout: Option<Duration> },
    /// Abort the workers, and the handlers that they spawned.
    AbortWorkers,
    /// Abort the hooks that are still running.
    AbortHooks,
    /// Wait until all background systems, workers, handlers and hooks have stopped.
    AwaitStop,
    /// The run is over.
    Finish,
    /// The run is over, because a startup hook panicked.
    Abort,
}

/// What came of an action.
pub enum Event<B: Backend> {
    /// The bus was made.
    BusCreated { bus: B::Shared },
    /// The channel was made.
    ChannelCreated { sender: B::Shared, receiver: B::Shared },
    /// The action is complete.
    Done,
    /// A startup hook panicked.
    StartupPanicked,
    /// The timeout passed first.
    TimedOut,
}

/// The action that a run waits for; a run that is `Starting` waits for none.
#[derive(Debug, Clone, Copy, PartialEq, Eq, Structural)]
pub enum Stage {
    Starting,
    CreatingBus(u64),
    CreatingChannel(u64),
    RunningFirst,
    CreatingService(u64),
    RunningStartupHooks,
    SpawningWorkers,
    RunningStartup,
    SpawningBackground,
    SpawningFixed,
    AwaitingShutdown,
    RunningShutdown,
    RunningShutdownHooks,
    ClosingChannels,
    AbortingSystems,
    DrainingWorkers,
    AbortingWorkers,
    AbortingHooks,
    AwaitingStop,
    RunningLast,
    Finished,
    Aborted,
}

/// A run of an application.
#[verifier::reject_recursive_types(B)]
pub struct Run<B: Backend> {
    app: App<B>,
    stage: Stage,
    receivers: HashMap<u64, B::Shared>,
}

/// What a run holds.
#[verifier::reject_recursive_types(B)]
#[verifier::ext_equal]
pub struct RunView<B: Backend> {
    pub app: AppView<B>,
    pub stage: Stage,
    /// The receiving ends of the channels whose services are not created yet.
    pub receivers: Map<u64, B::Shared>,
}

impl<B: Backend> View for Run<B> {
    type V = RunView<B>;

    closed spec fn view(&self) -> RunView<B> {
        RunView { app: self.app@, stage: self.stage, receivers: self.receivers@ }
    }
}

/// The launch of one system under the settings of `app`.
pub open spec fn launch_of<B: Backend>(app: AppView<B>, system: SystemDescriptor<B>) -> Launch<B> {
    let config = app.system_config(system.overrides);
    Launch { spawner: system.spawner, workers: config.workers, restart: config.restart }
}

/// The launches of `systems`, in their order.
pub open spec fn launches_of<B: Backend>(
    app: AppView<B>,
    systems: Seq<SystemDescriptor<B>>,
) -> Seq<Launch<B>> {
    systems.map_values(|system: SystemDescriptor<B>| launch_of(app, system))
}

/// The launch of one system that runs on an interval.
pub open spec fn fixed_launch_of<B: Backend>(
    app: AppView<B>,
    system: SystemDescriptor<B>,
) -> FixedLaunch<B> {
    FixedLaunch { interval: system.schedule->Fixed_0, launch: launch_of(app, system) }
}

/// The launches of `systems` that run on an interval, in their order.
pub open spec fn fixed_launches_of<B: Backend>(
    app: AppView<B>,
    systems: Seq<SystemDescriptor<B>>,
) -> Seq<FixedLaunch<B>> {
    systems.map_values(|system: SystemDescriptor<B>| fixed_launch_of(app, system))
}

impl<B: Backend> RunView<B> {
    /// The run of `app` before its first action.
    pub open spec fn start(app: AppView<B>) -> Self {
        RunView { app, stage: Stage::Starting, receivers: Map::empty() }
    }

    /// Every service that is not created yet waits for its channel or holds its receiving end.
    pub open spec fn wf(self) -> bool {
        &&& self.app.event_creators.dom().finite()
        &&& self.app.channel_creators.dom().finite()
        &&& self.app.service_spawners.dom().finite()
        &&& self.receivers.dom().disjoint(self.app.channel_creators.dom())
        &&& match self.stage {
            Stage::CreatingChannel(id) => {
                &&& !self.receivers.contains_key(id)
                &&& !self.app.channel_creators.contains_key(id)
                &&& self.app.service_spawners.dom() =~= self.receivers.dom().union(
                    self.app.channel_creators.dom(),
                ).insert(id)
            },
            _ => self.app.service_spawners.dom() =~= self.receivers.dom().union(
                self.app.channel_creators.dom(),
            ),
        }
        &&& !(self.stage is Starting || self.stage is CreatingBus || self.stage is CreatingChannel)
            ==> self.app.channel_creators.dom() =~= Set::empty()
    }

    /// Whether `event` can come of the action that the run waits for.
    pub open spec fn accepts(self, event: Event<B>) -> bool {
        match self.stage {
            Stage::CreatingBus(_) => event is BusCreated,
            Stage::CreatingChannel(_) => event is ChannelCreated,
            Stage::RunningStartupHooks => event is Done || event is StartupPanicked,
            Stage::RunningShutdownHooks | Stage::DrainingWorkers => event is Done || event is TimedOut
                && self.app.shutdown_timeout is Some,
            Stage::Finished | Stage::Aborted => false,
            _ => event is Done,
        }
    }

    /// The systems that `phase` starts from here.
    pub open spec fn starting(self, phase: Phase) -> Seq<SystemDescriptor<B>> {
        app::extracted_systems(self.app.systems, 0, phase)
    }

    /// This run at `stage`, with the systems that `phase` starts taken out.
    pub open spec fn without(self, phase: Phase, stage: Stage) -> Self {
        RunView {
            app: AppView {
                systems: app::remaining_systems(self.app.systems, 0, phase),
                ..self.app
            },
            stage,
            ..self
        }
    }

    /// From here the run makes the next bus, if one is to be made, else goes on to the channels.
    pub open spec fn enters_buses(self, post: Self, action: Action<B>) -> bool {
        if self.app.event_creators.dom() =~= Set::empty() {
            self.enters_channels(post, action)
        } else {
            action matches Action::CreateBus { id, creator, capacity } && {
                &&& self.app.event_creators.contains_key(id)
                &&& creator == self.app.event_creators[id]
                &&& capacity == self.app.event_config(id).capacity
                &&& post == RunView {
                    app: AppView {
                        event_creators: self.app.event_creators.remove(id),
                        ..self.app
                    },
                    stage: Stage::CreatingBus(id),
                    ..self
                }
            }
        }
    }

    /// From here the run makes the next channel, if one is to be made, else runs the first
    /// systems.
    pub open spec fn enters_channels(self, post: Self, action: Action<B>) -> bool {
        if self.app.channel_creators.dom() =~= Set::empty() {
            self.runs_phase(Phase::First, Stage::RunningFirst, post, action)
        } else {
            action matches Action::CreateChannel { id, creator, capacity } && {
                &&& self.app.channel_creators.contains_key(id)
                &&& creator == self.app.channel_creators[id]
                &&& capacity == self.app.service_config(id).capacity
                &&& post == RunView {
                    app: AppView {
                        channel_creators: self.app.channel_creators.remove(id),
                        ..self.app
                    },
                    stage: Stage::CreatingChannel(id),
                    ..self
                }
            }
        }
    }

    /// From here the run creates the next service, if one is to be created, else runs the
    /// startup hooks.
    pub open spec fn enters_services(self, post: Self, action: Action<B>) -> bool {
        if self.app.service_spawners.dom() =~= Set::empty() {
            action is RunStartupHooks && post == self.at(Stage::RunningStartupHooks)
        } else {
            action matches Action::CreateService { id, spawner, receiver, config } && {
                &&& self.app.service_spawners.contains_key(id)
                &&& spawner == self.app.service_spawners[id]
                &&& receiver == self.receivers[id]
                &&& config == self.app.service_config(id)
                &&& post == RunView {
                    app: AppView {
                        service_spawners: self.app.service_spawners.remove(id),
                        ..self.app
                    },
                    stage: Stage::CreatingService(id),
                    receivers: self.receivers.remove(id),
                }
            }
        }
    }

    /// This run at `stage`.
    pub open spec fn at(self, stage: Stage) -> Self {
        RunView { stage, ..self }
    }

    /// From here the run starts the systems of `phase` and waits until they are complete.
    pub open spec fn runs_phase(self, phase: Phase, stage: Stage, post: Self, action: Action<B>) -> bool {
        &&& action matches Action::RunToCompletion { systems } && systems@ == launches_of(
            self.app,
            self.starting(phase),
        )
        &&& post == self.without(phase, stage)
    }

    /// How a run goes on after `event`: the action that follows, and the run that waits for it.
    pub open spec fn steps(self, event: Event<B>, post: Self, action: Action<B>) -> bool {
        match self.stage {
            Stage::Starting => self.enters_buses(post, action),
            Stage::CreatingBus(id) => RunView {
                app: AppView {
                    event_buses: self.app.event_buses.insert(id, event->bus),
                    ..self.app
                },
                ..self
            }.enters_buses(post, action),
            Stage::CreatingChannel(id) => RunView {
                app: AppView {
                    service_senders: self.app.service_senders.insert(id, event->sender),
                    ..self.app
                },
                receivers: self.receivers.insert(id, event->receiver),
                ..self
            }.enters_channels(post, action),
            Stage::RunningFirst => self.enters_services(post, action),
            Stage::CreatingService(_) => self.enters_services(post, action),
            Stage::RunningStartupHooks => if event is StartupPanicked {
                action is Abort && post == self.at(Stage::Aborted)
            } else {
                action is SpawnWorkers && post == self.at(Stage::SpawningWorkers)
            },
            Stage::SpawningWorkers => self.runs_phase(
                Phase::Startup,
                Stage::RunningStartup,
                post,
                action,
            ),
            Stage::RunningStartup => {
                &&& action matches Action::SpawnBackground { systems } && systems@ == launches_of(
                    self.app,
                    self.starting(Phase::Run),
                )
                &&& post == self.without(Phase::Run, Stage::SpawningBackground)
            },
            Stage::SpawningBackground => {
                &&& action matches Action::SpawnFixed { systems } && systems@ == fixed_launches_of(
                    self.app,
                    self.starting(Phase::Fixed),
                )
                &&& post == self.without(Phase::Fixed, Stage::SpawningFixed)
            },
            Stage::SpawningFixed => {
                &&& action matches Action::AwaitShutdown { shutdown } && shutdown.flag()
                    == self.app.shutdown_token
                &&& post == self.at(Stage::AwaitingShutdown)
            },
            Stage::AwaitingShutdown => self.runs_phase(
                Phase::Shutdown,
                Stage::RunningShutdown,
                post,
                action,
            ),
            Stage::RunningShutdown => {
                &&& action == Action::<B>::RunShutdownHooks { timeout: self.app.shutdown_timeout }
                &&& post == self.at(Stage::RunningShutdownHooks)
            },
            Stage::RunningShutdownHooks => action is CloseChannels && post == self.at(
                Stage::ClosingChannels,
            ),
            Stage::ClosingChannels => action is AbortSystems && post == self.at(
                Stage::AbortingSystems,
            ),
            Stage::AbortingSystems => {
                &&& action == Action::<B>::DrainWorkers { timeout: self.app.shutdown_timeout }
                &&& post == self.at(Stage::DrainingWorkers)
            },
            Stage::DrainingWorkers => if event is TimedOut {
                action is AbortWorkers && post == self.at(Stage::AbortingWorkers)
            } else {
                action is AbortHooks && post == self.at(Stage::AbortingHooks)
            },
            Stage::AbortingWorkers => action is AbortHooks && post == self.at(
                Stage::AbortingHooks,
            ),
            Stage::AbortingHooks => action is AwaitStop && post == self.at(Stage::AwaitingStop),
            Stage::AwaitingStop => self.runs_phase(
                Phase::Last,
                Stage::RunningLast,
                post,
                action,
            ),
            Stage::RunningLast => action is Finish && post == self.at(Stage::Finished),
            Stage::Finished | Stage::Aborted => false,
        }
    }
}

/// A key of `map`, if it has one.
fn any_key<V>(map: &HashMap<u64, V>) -> (found: Option<u64>)
    ensures
        found matches Some(key) ==> map@.contains_key(key),
        found is None ==> map@.dom() =~= Set::empty(),
{
    for key in keys: map.keys()
        invariant
            keys.index() == 0,
            keys.seq().unref().to_set() == map@.dom(),
    {
        assert(keys.seq().unref().contains(keys.seq().unref()[0]));
        return Some(*key);
    }
    None
}

impl<B: Backend> App<B> {
    /// The launches of `systems` under the settings of this application.
    fn launches(&self, systems: Vec<SystemDescriptor<B>>) -> (launches: Vec<Launch<B>>)
        ensures
            launches@ == launches_of(self@, systems@),
    {
        let mut launches: Vec<Launch<B>> = Vec::new();
        for system in it: systems
            invariant
                launches@ == launches_of(self@, systems@.take(it.index())),
                it.seq() == systems@,
        {
            proof {
                assert(systems@.take(it.index() + 1) =~= systems@.take(it.index()).push(system));
            }
            let config = self.resolve_system(system.overrides);
            launches.push(
                Launch { spawner: system.spawner, workers: config.workers, restart: config.restart },
            );
        }
        assert(systems@.take(systems@.len() as int) =~= systems@);
        launches
    }

    /// The launches of `systems`, which all run on an interval.
    fn fixed_launches(&self, systems: Vec<SystemDescriptor<B>>) -> (launches: Vec<FixedLaunch<B>>)
        requires
            forall|i: int|
                0 <= i < systems@.len() ==> (#[trigger] systems@[i]).schedule.phase()
                    == Phase::Fixed,
        ensures
            launches@ == fixed_launches_of(self@, systems@),
    {
        let mut launches: Vec<FixedLaunch<B>> = Vec::new();
        for system in it: systems
            invariant
                launches@ == fixed_launches_of(self@, systems@.take(it.index())),
                it.seq() == systems@,
                forall|i: int|
                    0 <= i < systems@.len() ==> (#[trigger] systems@[i]).schedule.phase()
                        == Phase::Fixed,
        {
            proof {
                assert(systems@.take(it.index() + 1) =~= systems@.take(it.index()).push(system));
                assert(systems@[it.index()].schedule.phase() == Phase::Fixed);
            }
            if let Schedule::Fixed(interval) = system.schedule {
                let config = self.resolve_system(system.overrides);
                let launch = Launch {
                    spawner: system.spawner,
                    workers: config.workers,
                    restart: config.restart,
                };
                launches.push(FixedLaunch { interval, launch });
            }
        }
        assert(systems@.take(systems@.len() as int) =~= systems@);
        launches
    }

    /// The run of the application, before its first action.
    pub fn run(self) -> (run: Run<B>)
        requires
            self@.wf(),
        ensures
            run@ == RunView::start(self@),
            run@.wf(),
    {
        let run = Run { app: self, stage: Stage::Starting, receivers: HashMap::new() };
        assert(run@ =~= RunView::start(self@));
        run
    }
}

impl<B: Backend> Run<B> {
    /// Makes the next bus, or goes on to the channels.
    fn next_bus(&mut self) -> (action: Action<B>)
        requires
            old(self)@.at(Stage::Starting).wf(),
        ensures
            old(self)@.enters_buses(final(self)@, action),
            final(self)@.wf(),
    {
        match any_key(&self.app.event_creators) {
            Some(id) => {
                let config = self.app.resolve_event(id);
                let creator = self.app.event_creators.remove(&id).unwrap();
                self.stage = Stage::CreatingBus(id);
                Action::CreateBus { id, creator, capacity: config.capacity }
            },
            None => self.next_channel(),
        }
    }

    /// Makes the next channel, or runs the first systems.
    fn next_channel(&mut self) -> (action: Action<B>)
        requires
            old(self)@.at(Stage::Starting).wf(),
        ensures
            old(self)@.enters_channels(final(self)@, action),
            final(self)@.wf(),
    {
        match any_key(&self.app.channel_creators) {
            Some(id) => {
                let config = self.app.resolve_service(id);
                let creator = self.app.channel_creators.remove(&id).unwrap();
                self.stage = Stage::CreatingChannel(id);
                Action::CreateChannel { id, creator, capacity: config.capacity }
            },
            None => self.run_phase_blocking(Phase::First, Stage::RunningFirst),
        }
    }

    /// Creates the next service, or runs the startup hooks.
    fn next_service(&mut self) -> (action: Action<B>)
        requires
            old(self)@.at(Stage::RunningFirst).wf(),
        ensures
            old(self)@.enters_services(final(self)@, action),
            final(self)@.wf(),
    {
        match any_key(&self.app.service_spawners) {
            Some(id) => {
                let config = self.app.resolve_service(id);
                let spawner = self.app.service_spawners.remove(&id).unwrap();
                let receiver = self.receivers.remove(&id).unwrap();
                self.stage = Stage::CreatingService(id);
                Action::CreateService { id, spawner, receiver, config }
            },
            None => {
                self.stage = Stage::RunningStartupHooks;
                Action::RunStartupHooks
            },
        }
    }

    /// Starts the systems of `phase` and waits until they are complete.
    fn run_phase_blocking(&mut self, phase: Phase, stage: Stage) -> (action: Action<B>)
        requires
            !(stage is Starting || stage is CreatingBus || stage is CreatingChannel),
            old(self)@.at(stage).wf(),
        ensures
            old(self)@.runs_phase(phase, stage, final(self)@, action),
            final(self)@.wf(),
    {
        let systems = self.app.extract_systems(phase);
        self.stage = stage;
        assert(launches_of(self.app@, systems@) =~= launches_of(old(self)@.app, systems@));
        Action::RunToCompletion { systems: self.app.launches(systems) }
    }

    /// The application that runs.
    pub fn app(&self) -> (app: &App<B>)
        ensures
            app@ == self@.app,
    {
        &self.app
    }

    /// The action that the run waits for.
    pub fn stage(&self) -> (stage: Stage)
        ensures
            stage == self@.stage,
    {
        self.stage
    }

    /// Whether `event` can come of the action that the run waits for.
    pub fn accepts(&self, event: &Event<B>) -> (accepted: bool)
        ensures
            accepted == self@.accepts(*event),
    {
        match self.stage {
            Stage::CreatingBus(_) => matches!(event, Event::BusCreated { .. }),
            Stage::CreatingChannel(_) => matches!(event, Event::ChannelCreated { .. }),
            Stage::RunningStartupHooks => matches!(event, Event::Done | Event::StartupPanicked),
            Stage::RunningShutdownHooks | Stage::DrainingWorkers => matches!(event, Event::Done)
                || matches!(event, Event::TimedOut) && self.app.shutdown_timeout.is_some(),
            Stage::Finished | Stage::Aborted => false,
            _ => matches!(event, Event::Done),
        }
    }

    /// Takes what came of the last action, and says which action comes next.
    pub fn step(&mut self, event: Event<B>) -> (action: Action<B>)
        requires
            old(self)@.wf(),
            old(self)@.accepts(event),
        ensures
            old(self)@.steps(event, final(self)@, action),
            final(self)@.wf(),
    {
        match (self.stage, event) {
            (Stage::Starting, _) => self.next_bus(),
            (Stage::CreatingBus(id), Event::BusCreated { bus }) => {
                self.app.event_buses.insert(id, bus);
                self.next_bus()
            },
            (Stage::CreatingChannel(id), Event::ChannelCreated { sender, receiver }) => {
                self.app.service_senders.insert(id, sender);
                self.receivers.insert(id, receiver);
                self.next_channel()
            },
            (Stage::RunningFirst, _) => self.next_service(),
            (Stage::CreatingService(_), _) => self.next_service(),
            (Stage::RunningStartupHooks, Event::StartupPanicked) => {
                self.stage = Stage::Aborted;
                Action::Abort
            },
            (Stage::RunningStartupHooks, _) => {
                self.stage = Stage::SpawningWorkers;
                Action::SpawnWorkers
            },
            (Stage::SpawningWorkers, _) => self.run_phase_blocking(
                Phase::Startup,
                Stage::RunningStartup,
            ),
            (Stage::RunningStartup, _) => {
                let systems = self.app.extract_systems(Phase::Run);
                self.stage = Stage::SpawningBackground;
                assert(launches_of(self.app@, systems@) =~= launches_of(old(self)@.app, systems@));
                Action::SpawnBackground { systems: self.app.launches(systems) }
            },
            (Stage::SpawningBackground, _) => {
                proof {
                    app::lemma_extraction(self.app@.systems, 0, Phase::Fixed);
                }
                let systems = self.app.extract_systems(Phase::Fixed);
                self.stage = Stage::SpawningFixed;
                assert(fixed_launches_of(self.app@, systems@) =~= fixed_launches_of(
                    old(self)@.app,
                    systems@,
                ));
                Action::SpawnFixed { systems: self.app.fixed_launches(systems) }
            },
            (Stage::SpawningFixed, _) => {
                self.stage = Stage::AwaitingShutdown;
                Action::AwaitShutdown { shutdown: self.app.shutdown_handle() }
            },
            (Stage::AwaitingShutdown, _) => self.run_phase_blocking(
                Phase::Shutdown,
                Stage::RunningShutdown,
            ),
            (Stage::RunningShutdown, _) => {
                self.stage = Stage::RunningShutdownHooks;
                Action::RunShutdownHooks { timeout: self.app.shutdown_timeout }
            },
            (Stage::RunningShutdownHooks, _) => {
                self.stage = Stage::ClosingChannels;
                Action::CloseChannels
            },
            (Stage::ClosingChannels, _) => {
                self.stage = Stage::AbortingSystems;
                Action::AbortSystems
            },
            (Stage::AbortingSystems, _) => {
                self.stage = Stage::DrainingWorkers;
                Action::DrainWorkers { timeout: self.app.shutdown_timeout }
            },
            (Stage::DrainingWorkers, Event::TimedOut) => {
                self.stage = Stage::AbortingWorkers;
                Action::AbortWorkers
            },
            (Stage::DrainingWorkers, _) | (Stage::AbortingWorkers, _) => {
                self.stage = Stage::AbortingHooks;
                Action::AbortHooks
            },
            (Stage::AbortingHooks, _) => {
                self.stage = Stage::AwaitingStop;
                Action::AwaitStop
            },
            (Stage::AwaitingStop, _) => self.run_phase_blocking(Phase::Last, Stage::RunningLast),
            _ => {
                self.stage = Stage::Finished;
                Action::Finish
            },
        }
    }
}

} // verus!

//! The application: what is registered with it, and how it is configured.

use std::collections::HashMap;
use std::time::Duration;
use tokio_util::sync::CancellationToken;
use vstd::multiset::Multiset;
use vstd::prelude::*;

use crate::config::{
    resolve_event, resolve_service, resolve_system, EventConfig, EventConfigBuilder,
    EventOverrides, ServiceConfigBuilder, ServiceOverrides, SystemConfig, SystemConfigBuilder,
    SystemOverrides, WorkerConfig,
};
#[allow(unused_imports)]
use crate::config;
use crate::schedule::{Phase, Schedule};
#[allow(unused_imports)]
use crate::shutdown;
use crate::shutdown::{new_token, Shutdown};

pub mod conduct;
pub mod laws;
pub mod lifecycle;
pub mod registry;
pub mod trace;

pub use lifecycle::{Action, Event, FixedLaunch, Launch, Run, RunView, Stage};

verus! {

broadcast use vstd::std_specs::hash::group_hash_axioms;

/// The values that an application holds for the runtime that drives it, without looking into
/// them.
pub trait Backend {
    /// A shared value: a resource, an event bus, or one end of a service's channel.
    type Shared;

    /// Makes the bus of one event, given its capacity.
    type EventCreator;

    /// Makes the channel of one service, given its capacity.
    type ChannelCreator;

    /// Creates one service and its workers.
    type ServiceSpawner;

    /// Creates the runs of one system.
    type SystemSpawner;
}

/// A registered system.
pub struct SystemDescriptor<B: Backend> {
    pub id: u64,
    pub schedule: Schedule,
    pub spawner: B::SystemSpawner,
    pub overrides: SystemOverrides,
}

/// An application: resources, events, services and systems, each known by the number of its
/// type, with the settings chosen for them.
#[verifier::reject_recursive_types(B)]
pub struct App<B: Backend> {
    resources: HashMap<u64, B::Shared>,
    event_buses: HashMap<u64, B::Shared>,
    service_senders: HashMap<u64, B::Shared>,
    event_creators: HashMap<u64, B::EventCreator>,
    channel_creators: HashMap<u64, B::ChannelCreator>,
    service_spawners: HashMap<u64, B::ServiceSpawner>,
    systems: Vec<SystemDescriptor<B>>,
    service_overrides: HashMap<u64, ServiceOverrides>,
    event_overrides: HashMap<u64, EventOverrides>,
    service_defaults: ServiceOverrides,
    system_defaults: SystemOverrides,
    event_defaults: EventOverrides,
    shutdown_token: CancellationToken,
    shutdown_timeout: Option<Duration>,
}

/// What an application holds.
#[verifier::reject_recursive_types(B)]
#[verifier::ext_equal]
pub struct AppView<B: Backend> {
    pub resources: Map<u64, B::Shared>,
    pub event_buses: Map<u64, B::Shared>,
    pub service_senders: Map<u64, B::Shared>,
    pub event_creators: Map<u64, B::EventCreator>,
    pub channel_creators: Map<u64, B::ChannelCreator>,
    pub service_spawners: Map<u64, B::ServiceSpawner>,
    pub systems: Seq<SystemDescriptor<B>>,
    pub service_overrides: Map<u64, ServiceOverrides>,
    pub event_overrides: Map<u64, EventOverrides>,
    pub service_defaults: ServiceOverrides,
    pub system_defaults: SystemOverrides,
    pub event_defaults: EventOverrides,
    pub shutdown_token: CancellationToken,
    pub shutdown_timeout: Option<Duration>,
}

impl<B: Backend> View for App<B> {
    type V = AppView<B>;

    closed spec fn view(&self) -> AppView<B> {
        AppView {
            resources: self.resources@,
            event_buses: self.event_buses@,
            service_senders: self.service_senders@,
            event_creators: self.event_creators@,
            channel_creators: self.channel_creators@,
            service_spawners: self.service_spawners@,
            systems: self.systems@,
            service_overrides: self.service_overrides@,
            event_overrides: self.event_overrides@,
            service_defaults: self.service_defaults,
            system_defaults: self.system_defaults,
            event_defaults: self.event_defaults,
            shutdown_token: self.shutdown_token,
            shutdown_timeout: self.shutdown_timeout,
        }
    }
}

/// The position of the first system with number `id`, or the length if there is none.
pub open spec fn first_with_id<B: Backend>(systems: Seq<SystemDescriptor<B>>, id: u64) -> int
    decreases systems.len(),
{
    if systems.len() == 0 || systems[0].id == id {
        0
    } else {
        1 + first_with_id(systems.drop_first(), id)
    }
}

impl<B: Backend> AppView<B> {
    /// Every service has both its channel's maker and its spawner; there are finitely many
    /// services and events; and settings are chosen only for what is registered.
    pub open spec fn wf(self) -> bool {
        &&& self.channel_creators.dom() =~= self.service_spawners.dom()
        &&& self.event_creators.dom().finite()
        &&& self.service_spawners.dom().finite()
        &&& self.service_overrides.dom().subset_of(self.channel_creators.dom())
        &&& self.event_overrides.dom().subset_of(self.event_creators.dom())
    }

    /// What was chosen for service `id`.
    pub open spec fn own_service(self, id: u64) -> ServiceOverrides {
        if self.service_overrides.contains_key(id) {
            self.service_overrides[id]
        } else {
            ServiceOverrides::none()
        }
    }

    /// What was chosen for event `id`.
    pub open spec fn own_event(self, id: u64) -> EventOverrides {
        if self.event_overrides.contains_key(id) {
            self.event_overrides[id]
        } else {
            EventOverrides::none()
        }
    }

    /// The settings that service `id` runs with.
    pub open spec fn service_config(self, id: u64) -> WorkerConfig {
        config::service_config(self.own_service(id), self.service_defaults)
    }

    /// The settings that the bus of event `id` is made with.
    pub open spec fn event_config(self, id: u64) -> EventConfig {
        config::event_config(self.own_event(id), self.event_defaults)
    }

    /// The settings that a system with the overrides `own` runs with.
    pub open spec fn system_config(self, own: SystemOverrides) -> SystemConfig {
        config::system_config(own, self.system_defaults)
    }

    /// An application with nothing registered and nothing chosen.
    pub open spec fn empty(token: CancellationToken) -> Self {
        AppView {
            resources: Map::empty(),
            event_buses: Map::empty(),
            service_senders: Map::empty(),
            event_creators: Map::empty(),
            channel_creators: Map::empty(),
            service_spawners: Map::empty(),
            systems: Seq::empty(),
            service_overrides: Map::empty(),
            event_overrides: Map::empty(),
            service_defaults: ServiceOverrides::none(),
            system_defaults: SystemOverrides::none(),
            event_defaults: EventOverrides::none(),
            shutdown_token: token,
            shutdown_timeout: None,
        }
    }

    /// This application with resource `id`.
    pub open spec fn with_resource(self, id: u64, resource: B::Shared) -> Self {
        AppView { resources: self.resources.insert(id, resource), ..self }
    }

    /// This application with event `id`, for which `overrides` are chosen.
    pub open spec fn with_event(
        self,
        id: u64,
        creator: B::EventCreator,
        overrides: EventOverrides,
    ) -> Self {
        AppView {
            event_creators: self.event_creators.insert(id, creator),
            event_overrides: self.event_overrides.insert(id, overrides),
            ..self
        }
    }

    /// This application with service `id`, for which `overrides` are chosen.
    pub open spec fn with_service(
        self,
        id: u64,
        channel: B::ChannelCreator,
        spawner: B::ServiceSpawner,
        overrides: ServiceOverrides,
    ) -> Self {
        AppView {
            channel_creators: self.channel_creators.insert(id, channel),
            service_spawners: self.service_spawners.insert(id, spawner),
            service_overrides: self.service_overrides.insert(id, overrides),
            ..self
        }
    }

    /// This application with `resources`, registered one after the other.
    pub open spec fn with_resources(self, resources: Seq<(u64, B::Shared)>) -> Self
        decreases resources.len(),
    {
        if resources.len() == 0 {
            self
        } else {
            let (id, resource) = resources.last();
            self.with_resources(resources.drop_last()).with_resource(id, resource)
        }
    }

    /// This application with `events`, registered one after the other with nothing chosen anew.
    pub open spec fn with_events(self, events: Seq<(u64, B::EventCreator)>) -> Self
        decreases events.len(),
    {
        if events.len() == 0 {
            self
        } else {
            let (id, creator) = events.last();
            let before = self.with_events(events.drop_last());
            before.with_event(id, creator, before.own_event(id))
        }
    }

    /// This application with `services`, registered one after the other with nothing chosen anew.
    pub open spec fn with_services(
        self,
        services: Seq<(u64, B::ChannelCreator, B::ServiceSpawner)>,
    ) -> Self
        decreases services.len(),
    {
        if services.len() == 0 {
            self
        } else {
            let (id, channel, spawner) = services.last();
            let before = self.with_services(services.drop_last());
            before.with_service(id, channel, spawner, before.own_service(id))
        }
    }

    /// This application with `systems` on `schedule`, with nothing chosen for them.
    pub open spec fn with_systems(
        self,
        schedule: Schedule,
        systems: Seq<(u64, B::SystemSpawner)>,
    ) -> Self {
        AppView {
            systems: self.systems + systems.map_values(
                |system: (u64, B::SystemSpawner)|
                    SystemDescriptor {
                        id: system.0,
                        schedule,
                        spawner: system.1,
                        overrides: SystemOverrides::none(),
                    },
            ),
            ..self
        }
    }

    /// The position of the system that `App::system` configures.
    pub open spec fn system_index(self, id: u64) -> int {
        first_with_id(self.systems, id)
    }
}

/// Configures the shutdown of an application.
#[verifier::reject_recursive_types(B)]
pub struct ShutdownConfigBuilder<'a, B: Backend> {
    pub app: &'a mut App<B>,
}

impl<'a, B: Backend> ShutdownConfigBuilder<'a, B> {
    /// Force-abort workers if they don't drain within this duration.
    pub fn timeout(self, duration: Duration) -> (builder: Self)
        ensures
            builder.app@ == (AppView { shutdown_timeout: Some(duration), ..old(self.app)@ }),
            *final(builder.app) == *final(self.app),
    {
        self.app.shutdown_timeout = Some(duration);
        self
    }
}

impl<B: Backend> App<B> {
    /// Default channel capacity for event buses.
    pub const DEFAULT_EVENT_CAPACITY: usize = EventConfig::DEFAULT_CAPACITY;

    /// An application with nothing registered and every setting at its built-in value.
    pub fn new() -> (app: Self)
        ensures
            app@ == AppView::<B>::empty(app@.shutdown_token),
            shutdown::fresh(app@.shutdown_token),
            app@.wf(),
    {
        let app = App {
            resources: HashMap::new(),
            event_buses: HashMap::new(),
            service_senders: HashMap::new(),
            event_creators: HashMap::new(),
            channel_creators: HashMap::new(),
            service_spawners: HashMap::new(),
            systems: Vec::new(),
            service_overrides: HashMap::new(),
            event_overrides: HashMap::new(),
            service_defaults: ServiceOverrides::default(),
            system_defaults: SystemOverrides::default(),
            event_defaults: EventOverrides::default(),
            shutdown_token: new_token(),
            shutdown_timeout: None,
        };
        assert(app@ =~= AppView::<B>::empty(app@.shutdown_token));
        app
    }

    /// Configure shutdown behavior.
    pub fn shutdown(&mut self) -> (builder: ShutdownConfigBuilder<'_, B>)
        ensures
            builder.app@ == old(self)@,
            *final(self) == *final(builder.app),
    {
        ShutdownConfigBuilder { app: self }
    }

    /// Configure default settings for all services.
    pub fn service_defaults(&mut self) -> (builder: ServiceConfigBuilder<'_>)
        ensures
            *builder.overrides == old(self)@.service_defaults,
            final(self)@ == (AppView { service_defaults: *final(builder.overrides), ..old(self)@ }),
            old(self)@.wf() ==> final(self)@.wf(),
    {
        ServiceConfigBuilder { overrides: &mut self.service_defaults }
    }

    /// Configure default settings for all systems.
    pub fn system_defaults(&mut self) -> (builder: SystemConfigBuilder<'_>)
        ensures
            *builder.overrides == old(self)@.system_defaults,
            final(self)@ == (AppView { system_defaults: *final(builder.overrides), ..old(self)@ }),
            old(self)@.wf() ==> final(self)@.wf(),
    {
        SystemConfigBuilder { overrides: &mut self.system_defaults }
    }

    /// Configure default settings for all events.
    pub fn event_defaults(&mut self) -> (builder: EventConfigBuilder<'_>)
        ensures
            *builder.overrides == old(self)@.event_defaults,
            final(self)@ == (AppView { event_defaults: *final(builder.overrides), ..old(self)@ }),
            old(self)@.wf() ==> final(self)@.wf(),
    {
        EventConfigBuilder { overrides: &mut self.event_defaults }
    }

    /// Registers resource `id`. A resource is registered once.
    pub fn add_resource(&mut self, id: u64, resource: B::Shared) -> (app: &mut Self)
        requires
            !old(self)@.resources.contains_key(id),
        ensures
            app@ == old(self)@.with_resource(id, resource),
            old(self)@.wf() ==> app@.wf(),
            *final(self) == *final(app),
    {
        self.resources.insert(id, resource);
        self
    }

    /// Registers event `id`, whose bus `creator` makes. An event is registered once.
    pub fn add_event(&mut self, id: u64, creator: B::EventCreator) -> (builder: EventConfigBuilder<'_>)
        requires
            !old(self)@.event_creators.contains_key(id),
        ensures
            *builder.overrides == old(self)@.own_event(id),
            old(self)@.wf() ==> *builder.overrides == EventOverrides::none(),
            final(self)@ == old(self)@.with_event(id, creator, *final(builder.overrides)),
            old(self)@.wf() ==> final(self)@.wf(),
    {
        self.event_creators.insert(id, creator);
        EventConfigBuilder {
            overrides: self.event_overrides.entry(id).or_insert(EventOverrides::default()),
        }
    }

    /// Configures event `id`, which is registered.
    pub fn event(&mut self, id: u64) -> (builder: EventConfigBuilder<'_>)
        requires
            old(self)@.event_creators.contains_key(id),
        ensures
            *builder.overrides == old(self)@.own_event(id),
            final(self)@ == (AppView {
                event_overrides: old(self)@.event_overrides.insert(id, *final(builder.overrides)),
                ..old(self)@
            }),
            old(self)@.wf() ==> final(self)@.wf(),
    {
        EventConfigBuilder {
            overrides: self.event_overrides.entry(id).or_insert(EventOverrides::default()),
        }
    }

    /// Registers a system on `schedule`.
    pub fn add_system(&mut self, id: u64, schedule: Schedule, spawner: B::SystemSpawner) -> (builder:
        SystemConfigBuilder<'_>)
        ensures
            *builder.overrides == SystemOverrides::none(),
            final(self)@ == (AppView {
                systems: old(self)@.systems.push(
                    SystemDescriptor { id, schedule, spawner, overrides: *final(builder.overrides) },
                ),
                ..old(self)@
            }),
            old(self)@.wf() ==> final(self)@.wf(),
    {
        let last: usize = self.systems.len();
        self.systems.push(
            SystemDescriptor { id, schedule, spawner, overrides: SystemOverrides::default() },
        );
        SystemConfigBuilder { overrides: &mut self.systems[last].overrides }
    }

    /// Registers service `id`: `channel` makes its channel and `spawner` creates it. A service
    /// is registered once.
    pub fn add_service(
        &mut self,
        id: u64,
        channel: B::ChannelCreator,
        spawner: B::ServiceSpawner,
    ) -> (builder: ServiceConfigBuilder<'_>)
        requires
            !old(self)@.channel_creators.contains_key(id),
        ensures
            *builder.overrides == old(self)@.own_service(id),
            old(self)@.wf() ==> *builder.overrides == ServiceOverrides::none(),
            final(self)@ == old(self)@.with_service(
                id,
                channel,
                spawner,
                *final(builder.overrides),
            ),
            old(self)@.wf() ==> final(self)@.wf(),
    {
        self.channel_creators.insert(id, channel);
        self.service_spawners.insert(id, spawner);
        ServiceConfigBuilder {
            overrides: self.service_overrides.entry(id).or_insert(ServiceOverrides::default()),
        }
    }

    /// Configures service `id`, which is registered.
    pub fn service(&mut self, id: u64) -> (builder: ServiceConfigBuilder<'_>)
        requires
            old(self)@.channel_creators.contains_key(id),
        ensures
            *builder.overrides == old(self)@.own_service(id),
            final(self)@ == (AppView {
                service_overrides: old(self)@.service_overrides.insert(
                    id,
                    *final(builder.overrides),
                ),
                ..old(self)@
            }),
            old(self)@.wf() ==> final(self)@.wf(),
    {
        ServiceConfigBuilder {
            overrides: self.service_overrides.entry(id).or_insert(ServiceOverrides::default()),
        }
    }

    /// Registers `resources`, one after the other.
    pub fn add_resources(&mut self, resources: Vec<(u64, B::Shared)>) -> (app: &mut Self)
        requires
            forall|i: int|
                0 <= i < resources@.len() ==> !old(self)@.resources.contains_key(
                    (#[trigger] resources@[i]).0,
                ),
            forall|i: int, j: int|
                0 <= i < j < resources@.len() ==> (#[trigger] resources@[i]).0 != (
                #[trigger] resources@[j]).0,
        ensures
            app@ == old(self)@.with_resources(resources@),
            old(self)@.wf() ==> app@.wf(),
            *final(self) == *final(app),
    {
        for resource in it: resources
            invariant
                it.seq() == resources@,
                self@ == old(self)@.with_resources(resources@.take(it.index())),
                old(self)@.wf() ==> self@.wf(),
                forall|id: u64| #[trigger]
                    self@.resources.contains_key(id) ==> old(self)@.resources.contains_key(id)
                        || exists|i: int| 0 <= i < it.index() && (#[trigger] resources@[i]).0 == id,
                forall|i: int|
                    0 <= i < resources@.len() ==> !old(self)@.resources.contains_key(
                        (#[trigger] resources@[i]).0,
                    ),
                forall|i: int, j: int|
                    0 <= i < j < resources@.len() ==> (#[trigger] resources@[i]).0 != (
                    #[trigger] resources@[j]).0,
        {
            let ghost now = it.index();
            assert(resource == resources@[now]);
            assert(resources@.take(now + 1).drop_last() =~= resources@.take(now));
            self.add_resource(resource.0, resource.1);
            assert(resources@[now].0 == resource.0);
        }
        assert(resources@.take(resources@.len() as int) =~= resources@);
        self
    }

    /// Registers `events`, one after the other.
    pub fn add_events(&mut self, events: Vec<(u64, B::EventCreator)>) -> (app: &mut Self)
        requires
            forall|i: int|
                0 <= i < events@.len() ==> !old(self)@.event_creators.contains_key(
                    (#[trigger] events@[i]).0,
                ),
            forall|i: int, j: int|
                0 <= i < j < events@.len() ==> (#[trigger] events@[i]).0 != (
                #[trigger] events@[j]).0,
        ensures
            app@ == old(self)@.with_events(events@),
            old(self)@.wf() ==> app@.wf(),
            *final(self) == *final(app),
    {
        for event in it: events
            invariant
                it.seq() == events@,
                self@ == old(self)@.with_events(events@.take(it.index())),
                old(self)@.wf() ==> self@.wf(),
                forall|id: u64| #[trigger]
                    self@.event_creators.contains_key(id) ==> old(self)@.event_creators.contains_key(id)
                        || exists|i: int| 0 <= i < it.index() && (#[trigger] events@[i]).0 == id,
                forall|i: int|
                    0 <= i < events@.len() ==> !old(self)@.event_creators.contains_key(
                        (#[trigger] events@[i]).0,
                    ),
                forall|i: int, j: int|
                    0 <= i < j < events@.len() ==> (#[trigger] events@[i]).0 != (
                    #[trigger] events@[j]).0,
        {
            let ghost now = it.index();
            assert(event == events@[now]);
            assert(events@.take(now + 1).drop_last() =~= events@.take(now));
            self.add_event(event.0, event.1);
            assert(events@[now].0 == event.0);
        }
        assert(events@.take(events@.len() as int) =~= events@);
        self
    }

    /// Registers `services`, one after the other.
    pub fn add_services(&mut self, services: Vec<(u64, B::ChannelCreator, B::ServiceSpawner)>) -> (app: &mut Self)
        requires
            forall|i: int|
                0 <= i < services@.len() ==> !old(self)@.channel_creators.contains_key(
                    (#[trigger] services@[i]).0,
                ),
            forall|i: int, j: int|
                0 <= i < j < services@.len() ==> (#[trigger] services@[i]).0 != (
                #[trigger] services@[j]).0,
        ensures
            app@ == old(self)@.with_services(services@),
            old(self)@.wf() ==> app@.wf(),
            *final(self) == *final(app),
    {
        for service in it: services
            invariant
                it.seq() == services@,
                self@ == old(self)@.with_services(services@.take(it.index())),
                old(self)@.wf() ==> self@.wf(),
                forall|id: u64| #[trigger]
                    self@.channel_creators.contains_key(id) ==> old(self)@.channel_creators.contains_key(id)
                        || exists|i: int| 0 <= i < it.index() && (#[trigger] services@[i]).0 == id,
                forall|i: int|
                    0 <= i < services@.len() ==> !old(self)@.channel_creators.contains_key(
                        (#[trigger] services@[i]).0,
                    ),
                forall|i: int, j: int|
                    0 <= i < j < services@.len() ==> (#[trigger] services@[i]).0 != (
                    #[trigger] services@[j]).0,
        {
            let ghost now = it.index();
            assert(service == services@[now]);
            assert(services@.take(now + 1).drop_last() =~= services@.take(now));
            self.add_service(service.0, service.1, service.2);
            assert(services@[now].0 == service.0);
        }
        assert(services@.take(services@.len() as int) =~= services@);
        self
    }

    /// Registers `systems` on `schedule`, one after the other.
    pub fn add_systems(
        &mut self,
        schedule: Schedule,
        systems: Vec<(u64, B::SystemSpawner)>,
    ) -> (app: &mut Self)
        ensures
            app@ == old(self)@.with_systems(schedule, systems@),
            old(self)@.wf() ==> app@.wf(),
            *final(self) == *final(app),
    {
        assert(self@ =~= old(self)@.with_systems(schedule, systems@.take(0)));
        for system in it: systems
            invariant
                it.seq() == systems@,
                self@ == old(self)@.with_systems(schedule, systems@.take(it.index())),
                old(self)@.wf() ==> self@.wf(),
        {
            let ghost now = it.index();
            self.add_system(system.0, schedule, system.1);
            assert(system == systems@[now]);
            assert(self@ =~= old(self)@.with_systems(schedule, systems@.take(now + 1)));
        }
        assert(systems@.take(systems@.len() as int) =~= systems@);
        self
    }

    /// A handle on the shutdown of this application.
    pub fn shutdown_handle(&self) -> (handle: Shutdown)
        ensures
            handle.flag() == self@.shutdown_token,
    {
        Shutdown::new(&self.shutdown_token)
    }

    /// The position of the first system with number `id`, if there is one.
    fn find_system(&self, id: u64) -> (found: Option<usize>)
        ensures
            found is Some <==> self@.system_index(id) < self@.systems.len(),
            found matches Some(i) ==> i == self@.system_index(id),
    {
        let mut i: usize = 0;
        assert(self.systems@.skip(0) =~= self.systems@);
        while i < self.systems.len()
            invariant
                i <= self.systems@.len(),
                first_with_id(self.systems@, id) == i + first_with_id(
                    self.systems@.skip(i as int),
                    id,
                ),
            decreases self.systems@.len() - i,
        {
            proof {
                assert(self.systems@.skip(i as int).drop_first() =~= self.systems@.skip(i + 1));
            }
            if self.systems[i].id == id {
                return Some(i);
            }
            i = i + 1;
        }
        None
    }

    /// Configures the first system that was registered with number `id`; there is one.
    pub fn system(&mut self, id: u64) -> (builder: SystemConfigBuilder<'_>)
        requires
            old(self)@.system_index(id) < old(self)@.systems.len(),
        ensures
            *builder.overrides == old(self)@.systems[old(self)@.system_index(id)].overrides,
            final(self)@ == (AppView {
                systems: old(self)@.systems.update(
                    old(self)@.system_index(id),
                    SystemDescriptor {
                        overrides: *final(builder.overrides),
                        ..old(self)@.systems[old(self)@.system_index(id)]
                    },
                ),
                ..old(self)@
            }),
            old(self)@.wf() ==> final(self)@.wf(),
    {
        let found: usize = self.find_system(id).unwrap();
        SystemConfigBuilder { overrides: &mut self.systems[found].overrides }
    }

    /// Whether resource `id` is registered.
    pub fn has_resource(&self, id: u64) -> (registered: bool)
        ensures
            registered == self@.resources.contains_key(id),
    {
        self.resources.contains_key(&id)
    }

    /// Whether event `id` is registered.
    pub fn has_event(&self, id: u64) -> (registered: bool)
        ensures
            registered == self@.event_creators.contains_key(id),
    {
        self.event_creators.contains_key(&id)
    }

    /// Whether service `id` is registered.
    pub fn has_service(&self, id: u64) -> (registered: bool)
        ensures
            registered == self@.channel_creators.contains_key(id),
    {
        self.channel_creators.contains_key(&id)
    }

    /// Whether a system is registered with number `id`.
    pub fn has_system(&self, id: u64) -> (registered: bool)
        ensures
            registered == (self@.system_index(id) < self@.systems.len()),
    {
        self.find_system(id).is_some()
    }

    /// Resource `id`, if it is registered.
    pub fn resource(&self, id: u64) -> (found: Option<&B::Shared>)
        ensures
            found is Some <==> self@.resources.contains_key(id),
            found matches Some(resource) ==> *resource == self@.resources[id],
    {
        self.resources.get(&id)
    }

    /// The bus of event `id`, if it was made.
    pub fn event_bus(&self, id: u64) -> (found: Option<&B::Shared>)
        ensures
            found is Some <==> self@.event_buses.contains_key(id),
            found matches Some(bus) ==> *bus == self@.event_buses[id],
    {
        self.event_buses.get(&id)
    }

    /// The sending end of the channel of service `id`, if it was made.
    pub fn service_sender(&self, id: u64) -> (found: Option<&B::Shared>)
        ensures
            found is Some <==> self@.service_senders.contains_key(id),
            found matches Some(sender) ==> *sender == self@.service_senders[id],
    {
        self.service_senders.get(&id)
    }

    /// The settings that service `id` runs with.
    pub fn resolve_service(&self, id: u64) -> (config: WorkerConfig)
        ensures
            config == self@.service_config(id),
    {
        let own = match self.service_overrides.get(&id) {
            Some(own) => *own,
            None => ServiceOverrides::default(),
        };
        resolve_service(own, self.service_defaults)
    }

    /// The settings that a system with the overrides `own` runs with.
    pub fn resolve_system(&self, own: SystemOverrides) -> (config: SystemConfig)
        ensures
            config == self@.system_config(own),
    {
        resolve_system(own, self.system_defaults)
    }

    /// The settings that the bus of event `id` is made with.
    pub fn resolve_event(&self, id: u64) -> (config: EventConfig)
        ensures
            config == self@.event_config(id),
    {
        let own = match self.event_overrides.get(&id) {
            Some(own) => *own,
            None => EventOverrides::default(),
        };
        resolve_event(own, self.event_defaults)
    }

    /// Takes the systems that `phase` starts out of the application.
    pub(crate) fn extract_systems(&mut self, phase: Phase) -> (extracted: Vec<SystemDescriptor<B>>)
        ensures
            extracted@ == extracted_systems(old(self)@.systems, 0, phase),
            final(self)@ == (AppView {
                systems: remaining_systems(old(self)@.systems, 0, phase),
                ..old(self)@
            }),
            old(self)@.wf() ==> final(self)@.wf(),
    {
        let mut extracted: Vec<SystemDescriptor<B>> = Vec::new();
        let mut i: usize = 0;
        while i < self.systems.len()
            invariant
                i <= self.systems@.len(),
                extracted_systems(old(self)@.systems, 0, phase) == extracted@ + extracted_systems(
                    self.systems@,
                    i as int,
                    phase,
                ),
                remaining_systems(old(self)@.systems, 0, phase) == remaining_systems(
                    self.systems@,
                    i as int,
                    phase,
                ),
                self@ == (AppView { systems: self.systems@, ..old(self)@ }),
            decreases self.systems@.len() - i,
        {
            if self.systems[i].schedule.phase() == phase {
                let ghost before = self.systems@;
                let system = self.systems.swap_remove(i);
                proof {
                    assert(self.systems@ =~= swap_removed(before, i as int));
                }
                extracted.push(system);
            } else {
                i = i + 1;
            }
        }
        extracted
    }
}

impl<B: Backend> Default for App<B> {
    fn default() -> (app: Self)
        ensures
            app@ == AppView::<B>::empty(app@.shutdown_token),
            shutdown::fresh(app@.shutdown_token),
            app@.wf(),
    {
        Self::new()
    }
}

/// `systems` without the one at `i`, whose place the last one takes.
pub open spec fn swap_removed<B: Backend>(systems: Seq<SystemDescriptor<B>>, i: int) -> Seq<
    SystemDescriptor<B>,
> {
    systems.update(i, systems.last()).drop_last()
}

/// The systems that `phase` starts, in the order in which they leave `systems` from position `i`
/// on, where each one that leaves gives its place to the last one.
pub open spec fn extracted_systems<B: Backend>(
    systems: Seq<SystemDescriptor<B>>,
    i: int,
    phase: Phase,
) -> Seq<SystemDescriptor<B>>
    decreases systems.len() - i,
{
    if i < 0 || i >= systems.len() {
        Seq::empty()
    } else if systems[i].schedule.phase() == phase {
        seq![systems[i]] + extracted_systems(swap_removed(systems, i), i, phase)
    } else {
        extracted_systems(systems, i + 1, phase)
    }
}

/// The systems that stay, in the order in which that leaves them.
pub open spec fn remaining_systems<B: Backend>(
    systems: Seq<SystemDescriptor<B>>,
    i: int,
    phase: Phase,
) -> Seq<SystemDescriptor<B>>
    decreases systems.len() - i,
{
    if i < 0 || i >= systems.len() {
        systems
    } else if systems[i].schedule.phase() == phase {
        remaining_systems(swap_removed(systems, i), i, phase)
    } else {
        remaining_systems(systems, i + 1, phase)
    }
}

/// The systems of `systems` that `phase` starts, each as often as it is there.
pub open spec fn systems_of_phase<B: Backend>(
    systems: Multiset<SystemDescriptor<B>>,
    phase: Phase,
) -> Multiset<SystemDescriptor<B>> {
    systems.filter(|system: SystemDescriptor<B>| system.schedule.phase() == phase)
}

/// The systems of `systems` that another phase starts, each as often as it is there.
pub open spec fn systems_of_other_phases<B: Backend>(
    systems: Multiset<SystemDescriptor<B>>,
    phase: Phase,
) -> Multiset<SystemDescriptor<B>> {
    systems.filter(|system: SystemDescriptor<B>| system.schedule.phase() != phase)
}

proof fn lemma_swap_removed<B: Backend>(systems: Seq<SystemDescriptor<B>>, i: int)
    requires
        0 <= i < systems.len(),
    ensures
        systems.to_multiset() =~= swap_removed(systems, i).to_multiset().insert(systems[i]),
{
    let front = systems.drop_last();
    assert(systems =~= front.push(systems.last()));
    vstd::seq_lib::to_multiset_build(front, systems.last());
    if i == front.len() {
        assert(swap_removed(systems, i) =~= front);
    } else {
        assert(swap_removed(systems, i) =~= front.remove(i).insert(i, systems.last()));
        vstd::seq_lib::to_multiset_insert(front.remove(i), i, systems.last());
        vstd::seq_lib::to_multiset_remove(front, i);
        vstd::seq_lib::to_multiset_contains(front, front[i]);
    }
}

proof fn lemma_extraction<B: Backend>(systems: Seq<SystemDescriptor<B>>, i: int, phase: Phase)
    requires
        0 <= i <= systems.len(),
        forall|j: int| 0 <= j < i ==> (#[trigger] systems[j]).schedule.phase() != phase,
    ensures
        systems.to_multiset() =~= extracted_systems(systems, i, phase).to_multiset().add(
            remaining_systems(systems, i, phase).to_multiset(),
        ),
        forall|j: int|
            0 <= j < extracted_systems(systems, i, phase).len() ==> (#[trigger] extracted_systems(
                systems,
                i,
                phase,
            )[j]).schedule.phase() == phase,
        forall|j: int|
            0 <= j < remaining_systems(systems, i, phase).len() ==> (#[trigger] remaining_systems(
                systems,
                i,
                phase,
            )[j]).schedule.phase() != phase,
    decreases systems.len() - i,
{
    if i >= systems.len() {
        assert(extracted_systems(systems, i, phase).to_multiset() =~= Multiset::empty()) by {
            vstd::seq_lib::to_multiset_len(extracted_systems(systems, i, phase));
        }
    } else if systems[i].schedule.phase() == phase {
        let rest = swap_removed(systems, i);
        lemma_extraction(rest, i, phase);
        lemma_swap_removed(systems, i);
        let extracted = extracted_systems(rest, i, phase);
        assert(seq![systems[i]] + extracted =~= extracted.insert(0, systems[i]));
        vstd::seq_lib::to_multiset_insert(extracted, 0, systems[i]);
    } else {
        lemma_extraction(systems, i + 1, phase);
    }
}

/// Extraction takes exactly the systems that the phase starts, each as often as it was
/// registered, and leaves exactly the others.
pub proof fn law_extraction_is_exact<B: Backend>(systems: Seq<SystemDescriptor<B>>, phase: Phase)
    ensures
        extracted_systems(systems, 0, phase).to_multiset() == systems_of_phase(
            systems.to_multiset(),
            phase,
        ),
        remaining_systems(systems, 0, phase).to_multiset() == systems_of_other_phases(
            systems.to_multiset(),
            phase,
        ),
{
    lemma_extraction(systems, 0, phase);
    let extracted = extracted_systems(systems, 0, phase);
    let remaining = remaining_systems(systems, 0, phase);
    assert forall|system: SystemDescriptor<B>|
        extracted.to_multiset().count(system) == systems_of_phase(
            systems.to_multiset(),
            phase,
        ).count(system) && remaining.to_multiset().count(system) == systems_of_other_phases(
            systems.to_multiset(),
            phase,
        ).count(system) by {
        vstd::seq_lib::to_multiset_contains(extracted, system);
        vstd::seq_lib::to_multiset_contains(remaining, system);
    }
    assert(extracted.to_multiset() =~= systems_of_phase(systems.to_multiset(), phase));
    assert(remaining.to_multiset() =~= systems_of_other_phases(systems.to_multiset(), phase));
}

} // verus!

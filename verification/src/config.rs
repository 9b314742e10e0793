//! Configuration of services, systems and events: overrides, their builders, and how they
//! resolve against the defaults.

use vstd::prelude::*;

use crate::policy::RestartPolicy;

verus! {

/// Settings of one service, or of all services, that were chosen explicitly.
#[derive(Debug, Clone, Copy)]
pub struct ServiceOverrides {
    pub workers: Option<usize>,
    pub capacity: Option<usize>,
    pub concurrent: Option<usize>,
    pub restart: Option<RestartPolicy>,
}

/// Settings of one system, or of all systems, that were chosen explicitly.
#[derive(Debug, Clone, Copy)]
pub struct SystemOverrides {
    pub workers: Option<usize>,
    pub restart: Option<RestartPolicy>,
}

/// Settings of one event, or of all events, that were chosen explicitly.
#[derive(Debug, Clone, Copy)]
pub struct EventOverrides {
    pub capacity: Option<usize>,
}

/// The settings that a service runs with.
#[derive(Debug, Clone, Copy)]
pub struct WorkerConfig {
    pub workers: usize,
    pub capacity: usize,
    /// How many messages one worker handles at a time; `None` is one after the other.
    pub concurrent: Option<usize>,
    pub restart: RestartPolicy,
}

/// The settings that a system runs with.
#[derive(Debug, Clone, Copy)]
pub struct SystemConfig {
    pub workers: usize,
    pub restart: RestartPolicy,
}

/// The settings that an event bus is made with.
#[derive(Debug, Clone, Copy)]
pub struct EventConfig {
    pub capacity: usize,
}

impl ServiceOverrides {
    /// Nothing was chosen.
    pub open spec fn none() -> Self {
        ServiceOverrides { workers: None, capacity: None, concurrent: None, restart: None }
    }
}

impl SystemOverrides {
    /// Nothing was chosen.
    pub open spec fn none() -> Self {
        SystemOverrides { workers: None, restart: None }
    }
}

impl EventOverrides {
    /// Nothing was chosen.
    pub open spec fn none() -> Self {
        EventOverrides { capacity: None }
    }
}

impl Default for ServiceOverrides {
    fn default() -> (overrides: Self)
        ensures
            overrides == ServiceOverrides::none(),
    {
        ServiceOverrides { workers: None, capacity: None, concurrent: None, restart: None }
    }
}

impl Default for SystemOverrides {
    fn default() -> (overrides: Self)
        ensures
            overrides == SystemOverrides::none(),
    {
        SystemOverrides { workers: None, restart: None }
    }
}

impl Default for EventOverrides {
    fn default() -> (overrides: Self)
        ensures
            overrides == EventOverrides::none(),
    {
        EventOverrides { capacity: None }
    }
}

impl WorkerConfig {
    /// Default number of workers per service.
    pub const DEFAULT_WORKERS: usize = 1;

    /// Default channel capacity for service message queues.
    pub const DEFAULT_CAPACITY: usize = 32;
}

impl SystemConfig {
    /// Default number of workers per system.
    pub const DEFAULT_WORKERS: usize = 1;
}

impl EventConfig {
    /// Default channel capacity for event buses.
    pub const DEFAULT_CAPACITY: usize = 32;
}

impl Default for WorkerConfig {
    fn default() -> (config: Self)
        ensures
            config == (WorkerConfig {
                workers: 1,
                capacity: 32,
                concurrent: None,
                restart: RestartPolicy::Never,
            }),
    {
        WorkerConfig {
            workers: Self::DEFAULT_WORKERS,
            capacity: Self::DEFAULT_CAPACITY,
            concurrent: None,
            restart: RestartPolicy::default(),
        }
    }
}

impl Default for SystemConfig {
    fn default() -> (config: Self)
        ensures
            config == (SystemConfig { workers: 1, restart: RestartPolicy::Never }),
    {
        SystemConfig { workers: Self::DEFAULT_WORKERS, restart: RestartPolicy::default() }
    }
}

/// The value in force: the override if there is one, else the default if there is one, else the
/// fallback.
pub open spec fn in_force<T>(own: Option<T>, default: Option<T>, fallback: T) -> T {
    match own {
        Some(value) => value,
        None => match default {
            Some(value) => value,
            None => fallback,
        },
    }
}

/// The settings that a service with the overrides `own` runs with.
pub open spec fn service_config(own: ServiceOverrides, defaults: ServiceOverrides) -> WorkerConfig {
    let concurrent = in_force(own.concurrent, defaults.concurrent, 0);
    WorkerConfig {
        workers: in_force(own.workers, defaults.workers, 1),
        capacity: in_force(own.capacity, defaults.capacity, 32),
        concurrent: if concurrent > 0 {
            Some(concurrent)
        } else {
            None
        },
        restart: in_force(own.restart, defaults.restart, RestartPolicy::Never),
    }
}

/// The settings that a system with the overrides `own` runs with.
pub open spec fn system_config(own: SystemOverrides, defaults: SystemOverrides) -> SystemConfig {
    SystemConfig {
        workers: in_force(own.workers, defaults.workers, 1),
        restart: in_force(own.restart, defaults.restart, RestartPolicy::Never),
    }
}

/// The settings that the bus of an event with the overrides `own` is made with.
pub open spec fn event_config(own: EventOverrides, defaults: EventOverrides) -> EventConfig {
    EventConfig { capacity: in_force(own.capacity, defaults.capacity, 32) }
}

/// Picks the value in force.
fn choose_setting<T: Copy>(own: Option<T>, default: Option<T>, fallback: T) -> (value: T)
    ensures
        value == in_force(own, default, fallback),
{
    match own {
        Some(value) => value,
        None => match default {
            Some(value) => value,
            None => fallback,
        },
    }
}

/// Resolves the overrides of a service against the defaults.
pub fn resolve_service(own: ServiceOverrides, defaults: ServiceOverrides) -> (config: WorkerConfig)
    ensures
        config == service_config(own, defaults),
{
    let fallback = WorkerConfig::default();
    let concurrent: usize = choose_setting(own.concurrent, defaults.concurrent, 0);
    WorkerConfig {
        workers: choose_setting(own.workers, defaults.workers, fallback.workers),
        capacity: choose_setting(own.capacity, defaults.capacity, fallback.capacity),
        concurrent: if concurrent > 0 {
            Some(concurrent)
        } else {
            None
        },
        restart: choose_setting(own.restart, defaults.restart, fallback.restart),
    }
}

/// Resolves the overrides of a system against the defaults.
pub fn resolve_system(own: SystemOverrides, defaults: SystemOverrides) -> (config: SystemConfig)
    ensures
        config == system_config(own, defaults),
{
    let fallback = SystemConfig::default();
    SystemConfig {
        workers: choose_setting(own.workers, defaults.workers, fallback.workers),
        restart: choose_setting(own.restart, defaults.restart, fallback.restart),
    }
}

/// Resolves the overrides of an event against the defaults.
pub fn resolve_event(own: EventOverrides, defaults: EventOverrides) -> (config: EventConfig)
    ensures
        config == event_config(own, defaults),
{
    EventConfig {
        capacity: choose_setting(own.capacity, defaults.capacity, EventConfig::DEFAULT_CAPACITY),
    }
}

/// Configures a service, or the defaults of all services.
pub struct ServiceConfigBuilder<'a> {
    pub overrides: &'a mut ServiceOverrides,
}

impl<'a> ServiceConfigBuilder<'a> {
    /// Sets the number of workers.
    pub fn workers(self, n: usize) -> (builder: Self)
        ensures
            *builder.overrides == (ServiceOverrides { workers: Some(n), ..*old(self.overrides) }),
            *final(builder.overrides) == *final(self.overrides),
    {
        self.overrides.workers = Some(n);
        self
    }

    /// Sets the capacity of the message queue.
    pub fn capacity(self, n: usize) -> (builder: Self)
        ensures
            *builder.overrides == (ServiceOverrides { capacity: Some(n), ..*old(self.overrides) }),
            *final(builder.overrides) == *final(self.overrides),
    {
        self.overrides.capacity = Some(n);
        self
    }

    /// Sets how many messages a worker handles at a time; 0 is the same as `sequential`.
    pub fn concurrent(self, n: usize) -> (builder: Self)
        ensures
            *builder.overrides == (ServiceOverrides { concurrent: Some(n), ..*old(self.overrides) }),
            *final(builder.overrides) == *final(self.overrides),
    {
        self.overrides.concurrent = Some(n);
        self
    }

    /// Lets each worker handle one message after the other.
    pub fn sequential(self) -> (builder: Self)
        ensures
            *builder.overrides == (ServiceOverrides { concurrent: Some(0), ..*old(self.overrides) }),
            *final(builder.overrides) == *final(self.overrides),
    {
        self.overrides.concurrent = Some(0);
        self
    }

    /// Sets the restart policy of the workers.
    pub fn restart(self, policy: RestartPolicy) -> (builder: Self)
        ensures
            *builder.overrides == (ServiceOverrides { restart: Some(policy), ..*old(self.overrides) }),
            *final(builder.overrides) == *final(self.overrides),
    {
        self.overrides.restart = Some(policy);
        self
    }
}

/// Configures a system, or the defaults of all systems.
pub struct SystemConfigBuilder<'a> {
    pub overrides: &'a mut SystemOverrides,
}

impl<'a> SystemConfigBuilder<'a> {
    /// Sets the number of workers.
    pub fn workers(self, n: usize) -> (builder: Self)
        ensures
            *builder.overrides == (SystemOverrides { workers: Some(n), ..*old(self.overrides) }),
            *final(builder.overrides) == *final(self.overrides),
    {
        self.overrides.workers = Some(n);
        self
    }

    /// Sets the restart policy.
    pub fn restart(self, policy: RestartPolicy) -> (builder: Self)
        ensures
            *builder.overrides == (SystemOverrides { restart: Some(policy), ..*old(self.overrides) }),
            *final(builder.overrides) == *final(self.overrides),
    {
        self.overrides.restart = Some(policy);
        self
    }
}

/// Configures an event, or the defaults of all events.
pub struct EventConfigBuilder<'a> {
    pub overrides: &'a mut EventOverrides,
}

impl<'a> EventConfigBuilder<'a> {
    /// Sets the capacity of the event bus.
    pub fn capacity(self, n: usize) -> (builder: Self)
        ensures
            *builder.overrides == (EventOverrides { capacity: Some(n) }),
            *final(builder.overrides) == *final(self.overrides),
    {
        self.overrides.capacity = Some(n);
        self
    }
}

/// Nothing chosen anywhere gives the built-in settings.
pub proof fn law_built_in_settings()
    ensures
        service_config(ServiceOverrides::none(), ServiceOverrides::none()) == (WorkerConfig {
            workers: 1,
            capacity: 32,
            concurrent: None,
            restart: RestartPolicy::Never,
        }),
        system_config(SystemOverrides::none(), SystemOverrides::none()) == (SystemConfig {
            workers: 1,
            restart: RestartPolicy::Never,
        }),
        event_config(EventOverrides::none(), EventOverrides::none()) == (EventConfig {
            capacity: 32,
        }),
{
}

/// A service, a system or an event that chose nothing itself runs as the defaults say.
pub proof fn law_defaults_apply(
    services: ServiceOverrides,
    systems: SystemOverrides,
    events: EventOverrides,
)
    ensures
        service_config(ServiceOverrides::none(), services) == service_config(
            services,
            ServiceOverrides::none(),
        ),
        system_config(SystemOverrides::none(), systems) == system_config(
            systems,
            SystemOverrides::none(),
        ),
        event_config(EventOverrides::none(), events) == event_config(events, EventOverrides::none()),
{
}

/// What a service, a system or an event chose itself holds whatever the defaults are.
pub proof fn law_own_choice_wins(
    service: ServiceOverrides,
    services: ServiceOverrides,
    other_services: ServiceOverrides,
    system: SystemOverrides,
    systems: SystemOverrides,
    event: EventOverrides,
    events: EventOverrides,
)
    ensures
        service.workers is Some ==> service_config(service, services).workers
            == service.workers->0,
        service.capacity is Some ==> service_config(service, services).capacity
            == service.capacity->0,
        service.restart is Some ==> service_config(service, services).restart
            == service.restart->0,
        service.concurrent is Some ==> service_config(service, services).concurrent
            == service_config(service, other_services).concurrent,
        system.workers is Some ==> system_config(system, systems).workers == system.workers->0,
        system.restart is Some ==> system_config(system, systems).restart == system.restart->0,
        event.capacity is Some ==> event_config(event, events).capacity == event.capacity->0,
{
}

/// A concurrency of 0 makes a service sequential, even where the default is concurrent; and a
/// service never runs with room for no message at all.
pub proof fn law_zero_concurrency_is_sequential(own: ServiceOverrides, defaults: ServiceOverrides)
    ensures
        own.concurrent == Some(0usize) ==> service_config(own, defaults).concurrent is None,
        service_config(own, defaults).concurrent != Some(0usize),
{
}

/// Whether `value` is the first of these that is there: the own choice, the default, the built-in
/// value.
pub open spec fn first_choice<T>(value: T, own: Option<T>, default: Option<T>, built_in: T) -> bool {
    &&& own is Some ==> value == own->0
    &&& own is None && default is Some ==> value == default->0
    &&& own is None && default is None ==> value == built_in
}

/// Whether a service that runs with `concurrent` handles as many messages at a time as was chosen:
/// one after the other where nothing was chosen, or 0.
pub open spec fn concurrency_chosen(
    concurrent: Option<usize>,
    own: Option<usize>,
    default: Option<usize>,
) -> bool {
    &&& own is Some && own->0 > 0 ==> concurrent == own
    &&& own is None && default is Some && default->0 > 0 ==> concurrent == default
    &&& own == Some(0usize) ==> concurrent is None
    &&& own is None && (default is None || default == Some(0usize)) ==> concurrent is None
}

/// Each setting of a service resolves by itself, whatever else was chosen: its own choice, else
/// the default, else the built-in value.
pub proof fn law_service_settings_resolve_one_by_one(
    own: ServiceOverrides,
    defaults: ServiceOverrides,
    config: WorkerConfig,
)
    requires
        call_ensures(resolve_service, (own, defaults), config),
    ensures
        first_choice(config.workers, own.workers, defaults.workers, 1),
        first_choice(config.capacity, own.capacity, defaults.capacity, 32),
        first_choice(config.restart, own.restart, defaults.restart, RestartPolicy::Never),
        concurrency_chosen(config.concurrent, own.concurrent, defaults.concurrent),
{
}

/// Each setting of a system resolves by itself, whatever else was chosen.
pub proof fn law_system_settings_resolve_one_by_one(
    own: SystemOverrides,
    defaults: SystemOverrides,
    config: SystemConfig,
)
    requires
        call_ensures(resolve_system, (own, defaults), config),
    ensures
        first_choice(config.workers, own.workers, defaults.workers, 1),
        first_choice(config.restart, own.restart, defaults.restart, RestartPolicy::Never),
{
}

/// The capacity of an event bus is the event's own choice, else the default, else the built-in
/// value.
pub proof fn law_event_settings_resolve(
    own: EventOverrides,
    defaults: EventOverrides,
    config: EventConfig,
)
    requires
        call_ensures(resolve_event, (own, defaults), config),
    ensures
        first_choice(config.capacity, own.capacity, defaults.capacity, 32),
{
}

/// Settings do not mix: two services that agree on what was chosen for one setting agree on that
/// setting, however they differ otherwise.
pub proof fn law_settings_do_not_mix(
    own: ServiceOverrides,
    defaults: ServiceOverrides,
    config: WorkerConfig,
    other_own: ServiceOverrides,
    other_defaults: ServiceOverrides,
    other_config: WorkerConfig,
)
    requires
        call_ensures(resolve_service, (own, defaults), config),
        call_ensures(resolve_service, (other_own, other_defaults), other_config),
    ensures
        own.workers == other_own.workers && defaults.workers == other_defaults.workers
            ==> config.workers == other_config.workers,
        own.capacity == other_own.capacity && defaults.capacity == other_defaults.capacity
            ==> config.capacity == other_config.capacity,
        own.concurrent == other_own.concurrent && defaults.concurrent == other_defaults.concurrent
            ==> config.concurrent == other_config.concurrent,
        own.restart == other_own.restart && defaults.restart == other_defaults.restart
            ==> config.restart == other_config.restart,
{
}

/// The same of the settings that an application's services, systems and events run with.
pub proof fn law_settings_in_force(
    service: ServiceOverrides,
    services: ServiceOverrides,
    system: SystemOverrides,
    systems: SystemOverrides,
    event: EventOverrides,
    events: EventOverrides,
)
    ensures
        ({
            let config = service_config(service, services);
            &&& first_choice(config.workers, service.workers, services.workers, 1)
            &&& first_choice(config.capacity, service.capacity, services.capacity, 32)
            &&& first_choice(
                config.restart,
                service.restart,
                services.restart,
                RestartPolicy::Never,
            )
            &&& concurrency_chosen(config.concurrent, service.concurrent, services.concurrent)
        }),
        ({
            let config = system_config(system, systems);
            &&& first_choice(config.workers, system.workers, systems.workers, 1)
            &&& first_choice(config.restart, system.restart, systems.restart, RestartPolicy::Never)
        }),
        first_choice(event_config(event, events).capacity, event.capacity, events.capacity, 32),
{
}

/// Each choice for a service sets that setting and no other; one after the other is the same as 0
/// at a time.
pub proof fn law_service_builder_sets_one_setting<'a>(
    builder: ServiceConfigBuilder<'a>,
    n: usize,
    policy: RestartPolicy,
    workers: ServiceConfigBuilder<'a>,
    capacity: ServiceConfigBuilder<'a>,
    concurrent: ServiceConfigBuilder<'a>,
    sequential: ServiceConfigBuilder<'a>,
    restart: ServiceConfigBuilder<'a>,
)
    requires
        call_ensures(ServiceConfigBuilder::<'a>::workers, (builder, n), workers),
        call_ensures(ServiceConfigBuilder::<'a>::capacity, (builder, n), capacity),
        call_ensures(ServiceConfigBuilder::<'a>::concurrent, (builder, n), concurrent),
        call_ensures(ServiceConfigBuilder::<'a>::sequential, (builder,), sequential),
        call_ensures(ServiceConfigBuilder::<'a>::restart, (builder, policy), restart),
    ensures
        ({
            let before = *old(builder.overrides);
            &&& old(workers.overrides).workers == Some(n)
            &&& old(workers.overrides).capacity == before.capacity
            &&& old(workers.overrides).concurrent == before.concurrent
            &&& old(workers.overrides).restart == before.restart
            &&& old(capacity.overrides).workers == before.workers
            &&& old(capacity.overrides).capacity == Some(n)
            &&& old(capacity.overrides).concurrent == before.concurrent
            &&& old(capacity.overrides).restart == before.restart
            &&& old(concurrent.overrides).workers == before.workers
            &&& old(concurrent.overrides).capacity == before.capacity
            &&& old(concurrent.overrides).concurrent == Some(n)
            &&& old(concurrent.overrides).restart == before.restart
            &&& old(sequential.overrides).workers == before.workers
            &&& old(sequential.overrides).capacity == before.capacity
            &&& old(sequential.overrides).concurrent == Some(0usize)
            &&& old(sequential.overrides).restart == before.restart
            &&& old(restart.overrides).workers == before.workers
            &&& old(restart.overrides).capacity == before.capacity
            &&& old(restart.overrides).concurrent == before.concurrent
            &&& old(restart.overrides).restart == Some(policy)
        }),
        *final(workers.overrides) == *final(builder.overrides),
        *final(capacity.overrides) == *final(builder.overrides),
        *final(concurrent.overrides) == *final(builder.overrides),
        *final(sequential.overrides) == *final(builder.overrides),
        *final(restart.overrides) == *final(builder.overrides),
{
}

/// Each choice for a system or an event sets that setting and no other.
pub proof fn law_other_builders_set_one_setting<'a>(
    system: SystemConfigBuilder<'a>,
    event: EventConfigBuilder<'a>,
    n: usize,
    policy: RestartPolicy,
    workers: SystemConfigBuilder<'a>,
    restart: SystemConfigBuilder<'a>,
    capacity: EventConfigBuilder<'a>,
)
    requires
        call_ensures(SystemConfigBuilder::<'a>::workers, (system, n), workers),
        call_ensures(SystemConfigBuilder::<'a>::restart, (system, policy), restart),
        call_ensures(EventConfigBuilder::<'a>::capacity, (event, n), capacity),
    ensures
        old(workers.overrides).workers == Some(n),
        old(workers.overrides).restart == old(system.overrides).restart,
        old(restart.overrides).workers == old(system.overrides).workers,
        old(restart.overrides).restart == Some(policy),
        old(capacity.overrides).capacity == Some(n),
        *final(workers.overrides) == *final(system.overrides),
        *final(restart.overrides) == *final(system.overrides),
        *final(capacity.overrides) == *final(event.overrides),
{
}

/// The built-in settings, and choices before anything was chosen.
pub proof fn law_defaults_of_the_types(
    service: WorkerConfig,
    system: SystemConfig,
    services: ServiceOverrides,
    systems: SystemOverrides,
    events: EventOverrides,
)
    requires
        call_ensures(<WorkerConfig as Default>::default, (), service),
        call_ensures(<SystemConfig as Default>::default, (), system),
        call_ensures(<ServiceOverrides as Default>::default, (), services),
        call_ensures(<SystemOverrides as Default>::default, (), systems),
        call_ensures(<EventOverrides as Default>::default, (), events),
    ensures
        service.workers == 1 && service.capacity == 32 && service.concurrent is None
            && service.restart is Never,
        system.workers == 1 && system.restart is Never,
        services.workers is None && services.capacity is None && services.concurrent is None
            && services.restart is None,
        systems.workers is None && systems.restart is None,
        events.capacity is None,
        WorkerConfig::DEFAULT_WORKERS == 1,
        WorkerConfig::DEFAULT_CAPACITY == 32,
        SystemConfig::DEFAULT_WORKERS == 1,
        EventConfig::DEFAULT_CAPACITY == 32,
{
}

} // verus!

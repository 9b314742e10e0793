//! What registering and looking up does to an application.

use std::time::Duration;
use vstd::prelude::*;

use crate::app::{App, AppView, Backend, ShutdownConfigBuilder, SystemDescriptor};
use crate::config::{
    EventConfig, EventConfigBuilder, EventOverrides, ServiceConfigBuilder, ServiceOverrides,
    SystemConfig, SystemConfigBuilder, SystemOverrides, WorkerConfig,
};
#[allow(unused_imports)]
use crate::config;
use crate::policy::RestartPolicy;
use crate::schedule::Schedule;
use crate::shutdown::Shutdown;
#[allow(unused_imports)]
use crate::shutdown;

verus! {

/// Whether `after` is `before` but for what is found under `id`.
pub open spec fn same_but_for<V>(before: Map<u64, V>, after: Map<u64, V>, id: u64) -> bool {
    forall|other: u64|
        other != id ==> (#[trigger] after.contains_key(other) <==> before.contains_key(other))
            && after[other] == before[other]
}

/// A new application holds nothing, and nothing is chosen for it.
pub proof fn law_new_application_is_empty<B: Backend>(app: App<B>, id: u64)
    requires
        call_ensures(App::<B>::new, (), app) || call_ensures(
            <App<B> as Default>::default,
            (),
            app,
        ),
    ensures
        !app@.resources.contains_key(id),
        !app@.event_buses.contains_key(id),
        !app@.service_senders.contains_key(id),
        !app@.event_creators.contains_key(id),
        !app@.channel_creators.contains_key(id),
        !app@.service_spawners.contains_key(id),
        !app@.service_overrides.contains_key(id),
        !app@.event_overrides.contains_key(id),
        app@.systems.len() == 0,
        app@.service_defaults.workers is None,
        app@.service_defaults.capacity is None,
        app@.service_defaults.concurrent is None,
        app@.service_defaults.restart is None,
        app@.system_defaults.workers is None,
        app@.system_defaults.restart is None,
        app@.event_defaults.capacity is None,
        app@.shutdown_timeout is None,
        shutdown::fresh(app@.shutdown_token),
{
}

/// A resource that is registered is found, and nothing else changes.
pub proof fn law_resource_is_registered<B: Backend>(app: AppView<B>, id: u64, resource: B::Shared)
    ensures
        ({
            let after = app.with_resource(id, resource);
            &&& after.resources.contains_key(id)
            &&& after.resources[id] == resource
            &&& same_but_for(app.resources, after.resources, id)
            &&& after == (AppView { resources: after.resources, ..app })
        }),
{
}

/// An event that is registered has its maker and what was chosen for it, and nothing else
/// changes.
pub proof fn law_event_is_registered<B: Backend>(
    app: AppView<B>,
    id: u64,
    creator: B::EventCreator,
    overrides: EventOverrides,
)
    ensures
        ({
            let after = app.with_event(id, creator, overrides);
            &&& after.event_creators.contains_key(id)
            &&& after.event_creators[id] == creator
            &&& after.event_overrides.contains_key(id)
            &&& after.event_overrides[id] == overrides
            &&& same_but_for(app.event_creators, after.event_creators, id)
            &&& same_but_for(app.event_overrides, after.event_overrides, id)
            &&& after == (AppView {
                event_creators: after.event_creators,
                event_overrides: after.event_overrides,
                ..app
            })
        }),
{
}

/// A service that is registered has the maker of its channel, its spawner and what was chosen for
/// it, and nothing else changes.
pub proof fn law_service_is_registered<B: Backend>(
    app: AppView<B>,
    id: u64,
    channel: B::ChannelCreator,
    spawner: B::ServiceSpawner,
    overrides: ServiceOverrides,
)
    ensures
        ({
            let after = app.with_service(id, channel, spawner, overrides);
            &&& after.channel_creators.contains_key(id)
            &&& after.channel_creators[id] == channel
            &&& after.service_spawners.contains_key(id)
            &&& after.service_spawners[id] == spawner
            &&& after.service_overrides.contains_key(id)
            &&& after.service_overrides[id] == overrides
            &&& same_but_for(app.channel_creators, after.channel_creators, id)
            &&& same_but_for(app.service_spawners, after.service_spawners, id)
            &&& same_but_for(app.service_overrides, after.service_overrides, id)
            &&& after == (AppView {
                channel_creators: after.channel_creators,
                service_spawners: after.service_spawners,
                service_overrides: after.service_overrides,
                ..app
            })
        }),
{
}

/// Systems that are registered together come behind those that are there, in their order, on their
/// schedule, with nothing chosen for them; and nothing else changes.
pub proof fn law_systems_are_registered<B: Backend>(
    app: AppView<B>,
    schedule: Schedule,
    systems: Seq<(u64, B::SystemSpawner)>,
)
    ensures
        ({
            let after = app.with_systems(schedule, systems);
            &&& after.systems.len() == app.systems.len() + systems.len()
            &&& forall|i: int|
                0 <= i < app.systems.len() ==> #[trigger] after.systems[i] == app.systems[i]
            &&& forall|i: int|
                0 <= i < systems.len() ==> {
                    let added = after.systems[app.systems.len() + i];
                    &&& added.id == (#[trigger] systems[i]).0
                    &&& added.spawner == systems[i].1
                    &&& added.schedule == schedule
                    &&& added.overrides.workers is None
                    &&& added.overrides.restart is None
                }
            &&& after == (AppView { systems: after.systems, ..app })
        }),
{
}

/// Events that are registered together have their makers each, keep what was chosen for them, and
/// no other event changes.
pub proof fn law_events_are_registered<B: Backend>(
    app: AppView<B>,
    events: Seq<(u64, B::EventCreator)>,
    id: u64,
)
    requires
        forall|i: int, j: int|
            0 <= i < j < events.len() ==> (#[trigger] events[i]).0 != (#[trigger] events[j]).0,
    ensures
        ({
            let after = app.with_events(events);
            &&& forall|i: int|
                0 <= i < events.len() ==> {
                    &&& after.event_creators.contains_key((#[trigger] events[i]).0)
                    &&& after.event_creators[events[i].0] == events[i].1
                    &&& after.event_overrides.contains_key(events[i].0)
                }
            &&& (forall|i: int| 0 <= i < events.len() ==> (#[trigger] events[i]).0 != id) ==> {
                &&& after.event_creators.contains_key(id) == app.event_creators.contains_key(id)
                &&& after.event_creators[id] == app.event_creators[id]
                &&& after.event_overrides.contains_key(id) == app.event_overrides.contains_key(id)
            }
            &&& app.event_overrides.contains_key(id) ==> after.event_overrides.contains_key(id)
                && after.event_overrides[id] == app.event_overrides[id]
            &&& !app.event_overrides.contains_key(id) && after.event_overrides.contains_key(id)
                ==> after.event_overrides[id].capacity is None
            &&& after == (AppView {
                event_creators: after.event_creators,
                event_overrides: after.event_overrides,
                ..app
            })
        }),
    decreases events.len(),
{
    if events.len() > 0 {
        let front = events.drop_last();
        assert forall|i: int, j: int| 0 <= i < j < front.len() implies (#[trigger] front[i]).0 != (
        #[trigger] front[j]).0 by {
            assert(events[i].0 != events[j].0);
        }
        law_events_are_registered(app, front, id);
        law_events_are_registered(app, front, events.last().0);
        let before = app.with_events(front);
        let after = app.with_events(events);
        assert forall|i: int| 0 <= i < events.len() implies {
            &&& after.event_creators.contains_key((#[trigger] events[i]).0)
            &&& after.event_creators[events[i].0] == events[i].1
            &&& after.event_overrides.contains_key(events[i].0)
        } by {
            if i < front.len() {
                assert(front[i] == events[i]);
                assert(events[i].0 != events[events.len() - 1].0);
            }
        }
        if forall|i: int| 0 <= i < events.len() ==> (#[trigger] events[i]).0 != id {
            assert(events[events.len() - 1].0 != id);
            assert forall|i: int| 0 <= i < front.len() implies (#[trigger] front[i]).0 != id by {
                assert(events[i].0 != id);
            }
        }
        assert(after.event_creators == before.event_creators.insert(
            events.last().0,
            events.last().1,
        ));
    }
}

/// Services that are registered together have the makers of their channels and their spawners
/// each, keep what was chosen for them, and no other service changes.
pub proof fn law_services_are_registered<B: Backend>(
    app: AppView<B>,
    services: Seq<(u64, B::ChannelCreator, B::ServiceSpawner)>,
    id: u64,
)
    requires
        forall|i: int, j: int|
            0 <= i < j < services.len() ==> (#[trigger] services[i]).0 != (
            #[trigger] services[j]).0,
    ensures
        ({
            let after = app.with_services(services);
            &&& forall|i: int|
                0 <= i < services.len() ==> {
                    &&& after.channel_creators.contains_key((#[trigger] services[i]).0)
                    &&& after.channel_creators[services[i].0] == services[i].1
                    &&& after.service_spawners.contains_key(services[i].0)
                    &&& after.service_spawners[services[i].0] == services[i].2
                    &&& after.service_overrides.contains_key(services[i].0)
                }
            &&& (forall|i: int| 0 <= i < services.len() ==> (#[trigger] services[i]).0 != id) ==> {
                &&& after.channel_creators.contains_key(id) == app.channel_creators.contains_key(id)
                &&& after.channel_creators[id] == app.channel_creators[id]
                &&& after.service_spawners.contains_key(id) == app.service_spawners.contains_key(id)
                &&& after.service_spawners[id] == app.service_spawners[id]
                &&& after.service_overrides.contains_key(id)
                    == app.service_overrides.contains_key(id)
            }
            &&& app.service_overrides.contains_key(id) ==> after.service_overrides.contains_key(id)
                && after.service_overrides[id] == app.service_overrides[id]
            &&& !app.service_overrides.contains_key(id) && after.service_overrides.contains_key(id)
                ==> {
                let own = after.service_overrides[id];
                own.workers is None && own.capacity is None && own.concurrent is None
                    && own.restart is None
            }
            &&& after == (AppView {
                channel_creators: after.channel_creators,
                service_spawners: after.service_spawners,
                service_overrides: after.service_overrides,
                ..app
            })
        }),
    decreases services.len(),
{
    if services.len() > 0 {
        let front = services.drop_last();
        assert forall|i: int, j: int| 0 <= i < j < front.len() implies (#[trigger] front[i]).0 != (
        #[trigger] front[j]).0 by {
            assert(services[i].0 != services[j].0);
        }
        law_services_are_registered(app, front, id);
        law_services_are_registered(app, front, services.last().0);
        let after = app.with_services(services);
        assert forall|i: int| 0 <= i < services.len() implies {
            &&& after.channel_creators.contains_key((#[trigger] services[i]).0)
            &&& after.channel_creators[services[i].0] == services[i].1
            &&& after.service_spawners.contains_key(services[i].0)
            &&& after.service_spawners[services[i].0] == services[i].2
            &&& after.service_overrides.contains_key(services[i].0)
        } by {
            if i < front.len() {
                assert(front[i] == services[i]);
                assert(services[i].0 != services[services.len() - 1].0);
            }
        }
        if forall|i: int| 0 <= i < services.len() ==> (#[trigger] services[i]).0 != id {
            assert(services[services.len() - 1].0 != id);
            assert forall|i: int| 0 <= i < front.len() implies (#[trigger] front[i]).0 != id by {
                assert(services[i].0 != id);
            }
        }
    }
}

/// The settings of a service resolve from what was chosen for it under its number, and from the
/// defaults of services.
pub proof fn law_service_settings_of_an_application<B: Backend>(
    app: App<B>,
    id: u64,
    settings: WorkerConfig,
)
    requires
        call_ensures(App::<B>::resolve_service, (&app, id), settings),
    ensures
        ({
            let chosen = app@.service_overrides.contains_key(id);
            let own = app@.service_overrides[id];
            let defaults = app@.service_defaults;
            let none = None::<usize>;
            &&& config::first_choice(
                settings.workers,
                if chosen {
                    own.workers
                } else {
                    none
                },
                defaults.workers,
                1,
            )
            &&& config::first_choice(
                settings.capacity,
                if chosen {
                    own.capacity
                } else {
                    none
                },
                defaults.capacity,
                32,
            )
            &&& config::concurrency_chosen(
                settings.concurrent,
                if chosen {
                    own.concurrent
                } else {
                    none
                },
                defaults.concurrent,
            )
            &&& config::first_choice(
                settings.restart,
                if chosen {
                    own.restart
                } else {
                    None
                },
                defaults.restart,
                RestartPolicy::Never,
            )
        }),
{
}

/// The settings of an event's bus resolve from what was chosen for it under its number, and from
/// the defaults of events; those of a system from its own overrides, and the defaults of systems.
pub proof fn law_event_and_system_settings_of_an_application<B: Backend>(
    app: App<B>,
    id: u64,
    settings: EventConfig,
    own: SystemOverrides,
    system: SystemConfig,
)
    requires
        call_ensures(App::<B>::resolve_event, (&app, id), settings),
        call_ensures(App::<B>::resolve_system, (&app, own), system),
    ensures
        config::first_choice(
            settings.capacity,
            if app@.event_overrides.contains_key(id) {
                app@.event_overrides[id].capacity
            } else {
                None
            },
            app@.event_defaults.capacity,
            32,
        ),
        config::first_choice(system.workers, own.workers, app@.system_defaults.workers, 1),
        config::first_choice(
            system.restart,
            own.restart,
            app@.system_defaults.restart,
            RestartPolicy::Never,
        ),
{
}

/// What is registered is found under its number, and what is not is not.
pub proof fn law_registered_things_are_found<B: Backend>(
    app: App<B>,
    id: u64,
    resource: Option<&B::Shared>,
    bus: Option<&B::Shared>,
    sender: Option<&B::Shared>,
)
    requires
        call_ensures(App::<B>::resource, (&app, id), resource),
        call_ensures(App::<B>::event_bus, (&app, id), bus),
        call_ensures(App::<B>::service_sender, (&app, id), sender),
    ensures
        resource is Some <==> app@.resources.contains_key(id),
        resource is Some ==> *resource->0 == app@.resources[id],
        bus is Some <==> app@.event_buses.contains_key(id),
        bus is Some ==> *bus->0 == app@.event_buses[id],
        sender is Some <==> app@.service_senders.contains_key(id),
        sender is Some ==> *sender->0 == app@.service_senders[id],
{
}

/// An application knows what is registered with it: a system is registered with a number where one
/// of its systems has that number.
pub proof fn law_registered_things_are_known<B: Backend>(
    app: App<B>,
    id: u64,
    resource: bool,
    event: bool,
    service: bool,
    system: bool,
)
    requires
        call_ensures(App::<B>::has_resource, (&app, id), resource),
        call_ensures(App::<B>::has_event, (&app, id), event),
        call_ensures(App::<B>::has_service, (&app, id), service),
        call_ensures(App::<B>::has_system, (&app, id), system),
    ensures
        resource == app@.resources.contains_key(id),
        event == app@.event_creators.contains_key(id),
        service == app@.channel_creators.contains_key(id),
        system <==> exists|i: int|
            0 <= i < app@.systems.len() && (#[trigger] app@.systems[i]).id == id,
{
    crate::app::laws::law_first_system_is_configured(app@.systems, id);
    let first = app@.system_index(id);
    if system {
        assert(app@.systems[first].id == id);
    }
}

/// Every handle on the shutdown of an application raises its flag, and so do the copies of it.
pub proof fn law_handles_raise_the_flag_of_their_application<B: Backend>(
    app: App<B>,
    handle: Shutdown,
    copy: Shutdown,
)
    requires
        call_ensures(App::<B>::shutdown_handle, (&app,), handle),
        call_ensures(<Shutdown as Clone>::clone, (&handle,), copy),
        call_ensures(Shutdown::trigger, (&copy,), ()),
    ensures
        handle.flag() == app@.shutdown_token,
        copy.flag() == app@.shutdown_token,
        shutdown::raised(app@.shutdown_token),
{
}

/// A service is registered under its number, with its own makers and what is chosen for it through
/// the builder, which starts with nothing chosen; every other service, and everything else, stays.
pub proof fn law_add_service<'a, B: Backend>(
    app: &'a mut App<B>,
    id: u64,
    channel: B::ChannelCreator,
    spawner: B::ServiceSpawner,
    builder: ServiceConfigBuilder<'a>,
)
    requires
        call_ensures(App::<B>::add_service, (app, id, channel, spawner), builder),
        old(app)@.wf(),
        !old(app)@.channel_creators.contains_key(id),
    ensures
        final(app)@.wf(),
        final(app)@.channel_creators.contains_key(id),
        final(app)@.channel_creators[id] == channel,
        final(app)@.service_spawners.contains_key(id),
        final(app)@.service_spawners[id] == spawner,
        final(app)@.service_overrides.contains_key(id),
        final(app)@.service_overrides[id] == *final(builder.overrides),
        old(builder.overrides).workers is None,
        old(builder.overrides).capacity is None,
        old(builder.overrides).concurrent is None,
        old(builder.overrides).restart is None,
        same_but_for(old(app)@.channel_creators, final(app)@.channel_creators, id),
        same_but_for(old(app)@.service_spawners, final(app)@.service_spawners, id),
        same_but_for(old(app)@.service_overrides, final(app)@.service_overrides, id),
        final(app)@ == (AppView {
            channel_creators: final(app)@.channel_creators,
            service_spawners: final(app)@.service_spawners,
            service_overrides: final(app)@.service_overrides,
            ..old(app)@
        }),
{
}

/// An event is registered under its number, with its own maker and what is chosen for it through
/// the builder, which starts with nothing chosen; every other event, and everything else, stays.
pub proof fn law_add_event<'a, B: Backend>(
    app: &'a mut App<B>,
    id: u64,
    creator: B::EventCreator,
    builder: EventConfigBuilder<'a>,
)
    requires
        call_ensures(App::<B>::add_event, (app, id, creator), builder),
        old(app)@.wf(),
        !old(app)@.event_creators.contains_key(id),
    ensures
        final(app)@.wf(),
        final(app)@.event_creators.contains_key(id),
        final(app)@.event_creators[id] == creator,
        final(app)@.event_overrides.contains_key(id),
        final(app)@.event_overrides[id] == *final(builder.overrides),
        old(builder.overrides).capacity is None,
        same_but_for(old(app)@.event_creators, final(app)@.event_creators, id),
        same_but_for(old(app)@.event_overrides, final(app)@.event_overrides, id),
        final(app)@ == (AppView {
            event_creators: final(app)@.event_creators,
            event_overrides: final(app)@.event_overrides,
            ..old(app)@
        }),
{
}

/// A system comes behind those that are registered, on its schedule, with what is chosen for it
/// through the builder, which starts with nothing chosen; everything else stays.
pub proof fn law_add_system<'a, B: Backend>(
    app: &'a mut App<B>,
    id: u64,
    schedule: Schedule,
    spawner: B::SystemSpawner,
    builder: SystemConfigBuilder<'a>,
)
    requires
        call_ensures(App::<B>::add_system, (app, id, schedule, spawner), builder),
    ensures
        final(app)@.systems.len() == old(app)@.systems.len() + 1,
        final(app)@.systems.drop_last() == old(app)@.systems,
        final(app)@.systems.last().id == id,
        final(app)@.systems.last().schedule == schedule,
        final(app)@.systems.last().spawner == spawner,
        final(app)@.systems.last().overrides == *final(builder.overrides),
        old(builder.overrides).workers is None,
        old(builder.overrides).restart is None,
        final(app)@ == (AppView { systems: final(app)@.systems, ..old(app)@ }),
{
}

/// Configuring a service, or an event, that is registered starts from what was chosen for it
/// before, and changes nothing else.
pub proof fn law_registered_things_are_configured<'a, B: Backend>(
    app: &'a mut App<B>,
    other: &'a mut App<B>,
    id: u64,
    service: ServiceConfigBuilder<'a>,
    event: EventConfigBuilder<'a>,
)
    requires
        call_ensures(App::<B>::service, (app, id), service),
        call_ensures(App::<B>::event, (other, id), event),
    ensures
        old(app)@.service_overrides.contains_key(id) ==> *old(service.overrides)
            == old(app)@.service_overrides[id],
        final(app)@.service_overrides.contains_key(id),
        final(app)@.service_overrides[id] == *final(service.overrides),
        same_but_for(old(app)@.service_overrides, final(app)@.service_overrides, id),
        final(app)@ == (AppView {
            service_overrides: final(app)@.service_overrides,
            ..old(app)@
        }),
        old(other)@.event_overrides.contains_key(id) ==> *old(event.overrides)
            == old(other)@.event_overrides[id],
        final(other)@.event_overrides.contains_key(id),
        final(other)@.event_overrides[id] == *final(event.overrides),
        same_but_for(old(other)@.event_overrides, final(other)@.event_overrides, id),
        final(other)@ == (AppView {
            event_overrides: final(other)@.event_overrides,
            ..old(other)@
        }),
{
}

/// Configuring a system changes the first one with that number, and no other; it starts from what
/// was chosen for it before.
pub proof fn law_system_is_configured<'a, B: Backend>(
    app: &'a mut App<B>,
    id: u64,
    i: int,
    builder: SystemConfigBuilder<'a>,
)
    requires
        call_ensures(App::<B>::system, (app, id), builder),
        0 <= i < old(app)@.systems.len(),
        old(app)@.systems[i].id == id,
        forall|j: int| 0 <= j < i ==> (#[trigger] old(app)@.systems[j]).id != id,
    ensures
        *old(builder.overrides) == old(app)@.systems[i].overrides,
        final(app)@.systems == old(app)@.systems.update(
            i,
            SystemDescriptor {
                id: old(app)@.systems[i].id,
                schedule: old(app)@.systems[i].schedule,
                spawner: old(app)@.systems[i].spawner,
                overrides: *final(builder.overrides),
            },
        ),
        final(app)@ == (AppView { systems: final(app)@.systems, ..old(app)@ }),
{
    crate::app::laws::law_first_system_is_configured(old(app)@.systems, id);
    let first = old(app)@.system_index(id);
    assert(first <= i) by {
        if first > i {
            assert(old(app)@.systems[i].id != id);
        }
    }
    assert(first >= i) by {
        if first < i {
            assert(old(app)@.systems[first].id != id);
        }
    }
}

/// One resource is registered under its number, and the application is handed back for more.
pub proof fn law_add_resource<'a, B: Backend>(
    app: &'a mut App<B>,
    id: u64,
    resource: B::Shared,
    returned: &'a mut App<B>,
)
    requires
        call_ensures(App::<B>::add_resource, (app, id, resource), returned),
        !old(app)@.resources.contains_key(id),
    ensures
        old(returned)@.resources.contains_key(id),
        old(returned)@.resources[id] == resource,
        same_but_for(old(app)@.resources, old(returned)@.resources, id),
        old(returned)@ == (AppView { resources: old(returned)@.resources, ..old(app)@ }),
        *final(app) == *final(returned),
{
}

/// Resources that are registered together are all found under their numbers, those that were there
/// stay, and the application is handed back for more.
pub proof fn law_add_resources<'a, B: Backend>(
    app: &'a mut App<B>,
    resources: Vec<(u64, B::Shared)>,
    returned: &'a mut App<B>,
)
    requires
        call_ensures(App::<B>::add_resources, (app, resources), returned),
        forall|i: int, j: int|
            0 <= i < j < resources@.len() ==> (#[trigger] resources@[i]).0 != (
            #[trigger] resources@[j]).0,
    ensures
        forall|i: int|
            0 <= i < resources@.len() ==> {
                &&& old(returned)@.resources.contains_key((#[trigger] resources@[i]).0)
                &&& old(returned)@.resources[resources@[i].0] == resources@[i].1
            },
        forall|id: u64|
            (forall|i: int| 0 <= i < resources@.len() ==> (#[trigger] resources@[i]).0 != id) ==> {
                &&& (#[trigger] old(returned)@.resources.contains_key(id))
                    == old(app)@.resources.contains_key(id)
                &&& old(returned)@.resources[id] == old(app)@.resources[id]
            },
        old(returned)@ == (AppView { resources: old(returned)@.resources, ..old(app)@ }),
        *final(app) == *final(returned),
{
    crate::app::laws::law_resources_are_found(old(app)@, resources@);
    lemma_only_resources_change(old(app)@, resources@);
}

proof fn lemma_only_resources_change<B: Backend>(
    app: AppView<B>,
    resources: Seq<(u64, B::Shared)>,
)
    ensures
        app.with_resources(resources) == (AppView {
            resources: app.with_resources(resources).resources,
            ..app
        }),
    decreases resources.len(),
{
    if resources.len() > 0 {
        lemma_only_resources_change(app, resources.drop_last());
    }
}

/// Events, services and systems that are registered together are registered as if one after the
/// other, and the application is handed back for more.
pub proof fn law_add_many<'a, B: Backend>(
    app: &'a mut App<B>,
    events: Vec<(u64, B::EventCreator)>,
    services: Vec<(u64, B::ChannelCreator, B::ServiceSpawner)>,
    schedule: Schedule,
    systems: Vec<(u64, B::SystemSpawner)>,
    with_events: &'a mut App<B>,
    with_services: &'a mut App<B>,
    with_systems: &'a mut App<B>,
)
    requires
        call_ensures(App::<B>::add_events, (app, events), with_events),
        call_ensures(App::<B>::add_services, (with_events, services), with_services),
        call_ensures(App::<B>::add_systems, (with_services, schedule, systems), with_systems),
    ensures
        old(with_systems)@ == old(app)@.with_events(events@).with_services(services@).with_systems(
            schedule,
            systems@,
        ),
        *final(app) == *final(with_systems),
{
}

/// The defaults, and the time limit of the shutdown, are changed through their builders, which
/// start from what was chosen before; everything else stays.
pub proof fn law_defaults_are_configured<'a, B: Backend>(
    app: &'a mut App<B>,
    services: ServiceConfigBuilder<'a>,
    other: &'a mut App<B>,
    systems: SystemConfigBuilder<'a>,
    third: &'a mut App<B>,
    events: EventConfigBuilder<'a>,
)
    requires
        call_ensures(App::<B>::service_defaults, (app,), services),
        call_ensures(App::<B>::system_defaults, (other,), systems),
        call_ensures(App::<B>::event_defaults, (third,), events),
    ensures
        *old(services.overrides) == old(app)@.service_defaults,
        final(app)@ == (AppView { service_defaults: *final(services.overrides), ..old(app)@ }),
        *old(systems.overrides) == old(other)@.system_defaults,
        final(other)@ == (AppView { system_defaults: *final(systems.overrides), ..old(other)@ }),
        *old(events.overrides) == old(third)@.event_defaults,
        final(third)@ == (AppView { event_defaults: *final(events.overrides), ..old(third)@ }),
{
}

/// The time limit of the shutdown is the one that was chosen last, and nothing else changes.
pub proof fn law_shutdown_is_configured<'a, B: Backend>(
    app: &'a mut App<B>,
    limit: Duration,
    builder: ShutdownConfigBuilder<'a, B>,
    after: ShutdownConfigBuilder<'a, B>,
)
    requires
        call_ensures(App::<B>::shutdown, (app,), builder),
        call_ensures(ShutdownConfigBuilder::<'a, B>::timeout, (builder, limit), after),
    ensures
        old(after.app)@ == (AppView { shutdown_timeout: Some(limit), ..old(app)@ }),
        *final(app) == *final(after.app),
{
}

} // verus!

use std::time::Duration;

use archy_core::config::{
    EventConfig, EventOverrides, ServiceOverrides, SystemOverrides, WorkerConfig,
};
use archy_core::{App, Backend, RestartPolicy, Schedule, SystemConfig};

struct Names;

impl Backend for Names {
    type Shared = &'static str;
    type EventCreator = &'static str;
    type ChannelCreator = &'static str;
    type ServiceSpawner = &'static str;
    type SystemSpawner = &'static str;
}

fn app() -> App<Names> {
    App::new()
}

#[test]
fn built_in_settings() {
    let app = app();
    let config = app.resolve_service(1);
    assert_eq!(config.workers, 1);
    assert_eq!(config.capacity, 32);
    assert_eq!(config.concurrent, None);
    assert_eq!(config.restart, RestartPolicy::Never);
    let config = app.resolve_system(SystemOverrides::default());
    assert_eq!(config.workers, 1);
    assert_eq!(config.restart, RestartPolicy::Never);
    assert_eq!(app.resolve_event(1).capacity, 32);
    assert_eq!(WorkerConfig::default().capacity, WorkerConfig::DEFAULT_CAPACITY);
    assert_eq!(SystemConfig::default().workers, SystemConfig::DEFAULT_WORKERS);
    assert_eq!(EventConfig::DEFAULT_CAPACITY, 32);
    assert_eq!(App::<Names>::DEFAULT_EVENT_CAPACITY, 32);
    assert_eq!(ServiceOverrides::default().workers, None);
    assert_eq!(EventOverrides::default().capacity, None);
}

#[test]
fn service_settings_are_chosen_one_by_one() {
    let mut app = app();
    app.add_service(7, "channel", "spawner")
        .workers(4)
        .capacity(64)
        .concurrent(10)
        .restart(RestartPolicy::Always);
    let config = app.resolve_service(7);
    assert_eq!(config.workers, 4);
    assert_eq!(config.capacity, 64);
    assert_eq!(config.concurrent, Some(10));
    assert_eq!(config.restart, RestartPolicy::Always);
    assert_eq!(app.resolve_service(8).workers, 1);
}

#[test]
fn defaults_apply_where_nothing_is_chosen() {
    let mut app = app();
    app.service_defaults().workers(2).capacity(64);
    app.system_defaults().restart(RestartPolicy::Always);
    app.event_defaults().capacity(128);
    app.add_service(1, "channel", "spawner").workers(3);
    app.add_event(1, "bus");
    assert_eq!(app.resolve_service(1).workers, 3);
    assert_eq!(app.resolve_service(1).capacity, 64);
    assert_eq!(app.resolve_system(SystemOverrides::default()).restart, RestartPolicy::Always);
    assert_eq!(app.resolve_event(1).capacity, 128);
}

#[test]
fn sequential_overrides_a_concurrent_default() {
    let mut app = app();
    app.service_defaults().concurrent(8);
    app.add_service(1, "channel", "spawner").sequential();
    app.add_service(2, "channel", "spawner").concurrent(0);
    app.add_service(3, "channel", "spawner");
    assert_eq!(app.resolve_service(1).concurrent, None);
    assert_eq!(app.resolve_service(2).concurrent, None);
    assert_eq!(app.resolve_service(3).concurrent, Some(8));
}

#[test]
fn registered_items_are_configured_later() {
    let mut app = app();
    app.add_service(1, "channel", "spawner").workers(2);
    app.add_event(2, "bus");
    app.service(1).capacity(5);
    app.event(2).capacity(6);
    assert_eq!(app.resolve_service(1).workers, 2);
    assert_eq!(app.resolve_service(1).capacity, 5);
    assert_eq!(app.resolve_event(2).capacity, 6);
    assert!(app.has_service(1) && !app.has_service(2));
    assert!(app.has_event(2) && !app.has_event(1));
}

#[test]
fn resources_are_found() {
    let mut app = app();
    app.add_resource(1, "config").add_resource(2, "pool");
    app.add_resources(vec![(3, "cache"), (4, "clock")]);
    assert_eq!(app.resource(1), Some(&"config"));
    assert_eq!(app.resource(2), Some(&"pool"));
    assert_eq!(app.resource(3), Some(&"cache"));
    assert_eq!(app.resource(4), Some(&"clock"));
    assert_eq!(app.resource(5), None);
    assert!(app.has_resource(3) && !app.has_resource(5));
}

#[test]
fn batches_register_every_item() {
    let mut app = app();
    app.add_events(vec![(1, "one"), (2, "two")]);
    app.add_services(vec![(1, "channel", "a"), (2, "channel", "b")]);
    app.add_systems(Schedule::Run, vec![(5, "x"), (6, "y")]);
    assert!(app.has_event(1) && app.has_event(2));
    assert!(app.has_service(1) && app.has_service(2));
    assert!(app.has_system(5) && app.has_system(6) && !app.has_system(7));
    assert_eq!(app.event_bus(1), None);
    assert_eq!(app.service_sender(1), None);
}

#[test]
fn shutdown_handles_share_one_flag() {
    let mut app: App<Names> = App::default();
    app.shutdown().timeout(Duration::from_secs(30));
    let first = app.shutdown_handle();
    let second = first.clone();
    assert!(!second.token().is_cancelled());
    first.trigger();
    assert!(second.token().is_cancelled());
    assert!(app.shutdown_handle().token().is_cancelled());
}

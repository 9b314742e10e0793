use std::time::Duration;

use archy_core::{
    Action, App, Backend, Event, Phase, RestartPolicy, Run, Schedule, Stage, SystemDescriptor,
};

struct Names;

impl Backend for Names {
    type Shared = String;
    type EventCreator = &'static str;
    type ChannelCreator = &'static str;
    type ServiceSpawner = &'static str;
    type SystemSpawner = &'static str;
}

/// Performs every action on paper, and writes down what was done.
fn play(mut run: Run<Names>, hooks_panic: bool, hooks_late: bool, drain_late: bool) -> Vec<String> {
    let mut log = Vec::new();
    let mut event = Event::Done;
    loop {
        assert!(run.accepts(&event));
        let action = run.step(event);
        event = Event::Done;
        match action {
            Action::CreateBus { id, creator, capacity } => {
                log.push(format!("bus {id} {creator} {capacity}"));
                event = Event::BusCreated { bus: format!("bus {id}") };
            }
            Action::CreateChannel { id, creator, capacity } => {
                log.push(format!("channel {id} {creator} {capacity}"));
                event = Event::ChannelCreated {
                    sender: format!("sender {id}"),
                    receiver: format!("receiver {id}"),
                };
            }
            Action::RunToCompletion { systems } => {
                for system in systems {
                    log.push(format!("run {} x{}", system.spawner, system.workers));
                }
            }
            Action::CreateService { id, spawner, receiver, config } => {
                assert_eq!(run.app().service_sender(id), Some(&format!("sender {id}")));
                log.push(format!("service {id} {spawner} {receiver} x{}", config.workers));
            }
            Action::RunStartupHooks => {
                log.push("startup hooks".to_string());
                if hooks_panic {
                    event = Event::StartupPanicked;
                }
            }
            Action::SpawnWorkers => log.push("workers".to_string()),
            Action::SpawnBackground { systems } => {
                for system in systems {
                    log.push(format!("spawn {} x{}", system.spawner, system.workers));
                    assert_eq!(system.restart, RestartPolicy::Always);
                }
            }
            Action::SpawnFixed { systems } => {
                for system in systems {
                    log.push(format!("every {:?} {}", system.interval, system.launch.spawner));
                }
            }
            Action::AwaitShutdown { shutdown } => {
                run.app().shutdown_handle().trigger();
                assert!(shutdown.token().is_cancelled());
                log.push("shutdown".to_string());
            }
            Action::RunShutdownHooks { timeout } => {
                log.push(format!("shutdown hooks {timeout:?}"));
                if hooks_late {
                    event = Event::TimedOut;
                }
            }
            Action::CloseChannels => log.push("close".to_string()),
            Action::AbortSystems => log.push("abort systems".to_string()),
            Action::DrainWorkers { timeout } => {
                log.push(format!("drain {timeout:?}"));
                if drain_late {
                    event = Event::TimedOut;
                }
            }
            Action::AbortWorkers => log.push("abort workers".to_string()),
            Action::AbortHooks => log.push("abort hooks".to_string()),
            Action::AwaitStop => log.push("all stopped".to_string()),
            Action::Finish => {
                assert_eq!(run.stage(), Stage::Finished);
                assert!(!run.accepts(&Event::Done));
                return log;
            }
            Action::Abort => {
                assert_eq!(run.stage(), Stage::Aborted);
                log.push("aborted".to_string());
                return log;
            }
        }
    }
}

fn full_app() -> App<Names> {
    let mut app: App<Names> = App::new();
    app.add_event(1, "clicks").capacity(9);
    app.add_service(2, "orders", "order service").workers(3).capacity(7);
    app.system_defaults().restart(RestartPolicy::Always);
    app.add_system(10, Schedule::Last, "goodbye");
    app.add_system(11, Schedule::First, "migrate").workers(2);
    app.add_system(12, Schedule::Shutdown, "flush");
    app.add_system(13, Schedule::Run, "serve");
    app.add_system(14, Schedule::Startup, "warm up");
    app.add_system(15, Schedule::Fixed(Duration::from_secs(30)), "health");
    app
}

#[test]
fn phases_run_in_order() {
    let mut app = full_app();
    app.system(13).workers(4);
    let log = play(app.run(), false, false, false);
    assert_eq!(
        log,
        vec![
            "bus 1 clicks 9",
            "channel 2 orders 7",
            "run migrate x2",
            "service 2 order service receiver 2 x3",
            "startup hooks",
            "workers",
            "run warm up x1",
            "spawn serve x4",
            "every 30s health",
            "shutdown",
            "run flush x1",
            "shutdown hooks None",
            "close",
            "abort systems",
            "drain None",
            "abort hooks",
            "all stopped",
            "run goodbye x1",
        ]
    );
}

#[test]
fn timeouts_force_workers_to_stop() {
    let mut app: App<Names> = App::new();
    app.shutdown().timeout(Duration::from_secs(5));
    app.add_system(1, Schedule::Last, "goodbye");
    let log = play(app.run(), false, true, true);
    assert_eq!(
        log,
        vec![
            "startup hooks",
            "workers",
            "shutdown",
            "shutdown hooks Some(5s)",
            "close",
            "abort systems",
            "drain Some(5s)",
            "abort workers",
            "abort hooks",
            "all stopped",
            "run goodbye x1",
        ]
    );
}

#[test]
fn panic_in_a_startup_hook_aborts_the_run() {
    let mut app: App<Names> = App::new();
    app.add_system(1, Schedule::Startup, "warm up");
    let log = play(app.run(), true, false, false);
    assert_eq!(log, vec!["startup hooks", "aborted"]);
}

#[test]
fn every_bus_and_channel_is_made() {
    let mut app: App<Names> = App::new();
    app.add_events(vec![(1, "a"), (2, "b"), (3, "c")]);
    app.add_services(vec![(4, "x", "svc x"), (5, "y", "svc y")]);
    let mut log = play(app.run(), false, false, false);
    log.truncate(7);
    log.sort();
    assert_eq!(
        log,
        vec![
            "bus 1 a 32",
            "bus 2 b 32",
            "bus 3 c 32",
            "channel 4 x 32",
            "channel 5 y 32",
            "service 4 svc x receiver 4 x1",
            "service 5 svc y receiver 5 x1",
        ]
    );
}

#[test]
fn systems_of_one_phase_leave_in_swap_order() {
    let mut app: App<Names> = App::new();
    app.add_systems(Schedule::First, vec![(1, "a"), (2, "b"), (3, "c")]);
    let log = play(app.run(), false, false, false);
    assert_eq!(log[..3], ["run a x1", "run c x1", "run b x1"]);
}

#[test]
fn a_run_without_timeout_cannot_time_out() {
    let app: App<Names> = App::new();
    let mut run = app.run();
    while run.stage() != Stage::RunningShutdownHooks {
        run.step(Event::Done);
    }
    assert!(run.accepts(&Event::Done));
    assert!(!run.accepts(&Event::TimedOut));
}

#[test]
fn schedules_belong_to_their_phases() {
    assert_eq!(Schedule::First.phase(), Phase::First);
    assert_eq!(Schedule::Startup.phase(), Phase::Startup);
    assert_eq!(Schedule::Run.phase(), Phase::Run);
    assert_eq!(Schedule::Fixed(Duration::from_secs(1)).phase(), Phase::Fixed);
    assert_eq!(Schedule::Shutdown.phase(), Phase::Shutdown);
    assert_eq!(Schedule::Last.phase(), Phase::Last);
}

#[test]
fn only_the_first_system_of_a_number_is_configured() {
    let mut app: App<Names> = App::new();
    app.add_system(1, Schedule::First, "one");
    app.add_system(1, Schedule::First, "two");
    app.system(1).workers(5);
    let log = play(app.run(), false, false, false);
    assert_eq!(log[..2], ["run one x5", "run two x1"]);
}

#[test]
fn descriptors_are_plain_values() {
    let descriptor: SystemDescriptor<Names> = SystemDescriptor {
        id: 1,
        schedule: Schedule::Run,
        spawner: "serve",
        overrides: Default::default(),
    };
    assert_eq!(descriptor.overrides.workers, None);
    assert_eq!(descriptor.schedule, Schedule::Run);
}

#[test]
fn one_flag_shuts_down_every_handle() {
    let app: App<Names> = App::new();
    let first = app.shutdown_handle();
    let second = first.clone();
    assert!(!second.token().is_cancelled());
    first.trigger();
    assert!(second.token().is_cancelled());
    second.trigger();
    let mut run = app.run();
    run.step(Event::Done);
    assert!(run.app().shutdown_handle().token().is_cancelled());
    let other: App<Names> = App::new();
    assert!(!other.shutdown_handle().token().is_cancelled());
}

#[test]
fn every_service_is_created_once() {
    let mut app: App<Names> = App::new();
    app.add_services(vec![(4, "x", "svc x"), (5, "y", "svc y"), (6, "z", "svc z")]);
    let log = play(app.run(), false, false, false);
    for id in [4, 5, 6] {
        let prefix = format!("service {id} ");
        assert_eq!(log.iter().filter(|line| line.starts_with(&prefix)).count(), 1);
    }
}

use std::time::Duration;

use archy_core::{RestartPolicy, ServiceExit, Supervisor, SystemExit, SystemResult, Verdict};

fn secs(n: u64) -> Duration {
    Duration::from_secs(n)
}

#[test]
fn default_policy_is_never() {
    assert_eq!(RestartPolicy::default(), RestartPolicy::Never);
}

#[test]
fn attempts_has_the_default_window() {
    assert_eq!(
        RestartPolicy::attempts(3),
        RestartPolicy::Attempts { max: 3, reset_after: Some(secs(60)) }
    );
    assert_eq!(RestartPolicy::default_reset_after(), secs(60));
}

#[test]
fn never_stops_after_the_first_panic() {
    let mut supervisor = Supervisor::new(RestartPolicy::Never);
    assert_eq!(supervisor.supervise_service(ServiceExit::Panicked, secs(1)), Verdict::Stop);
}

#[test]
fn always_restarts_until_completion() {
    let mut supervisor = Supervisor::new(RestartPolicy::Always);
    for _ in 0..100 {
        assert_eq!(supervisor.supervise_service(ServiceExit::Panicked, secs(0)), Verdict::Restart);
    }
    assert_eq!(supervisor.supervise_service(ServiceExit::Completed, secs(0)), Verdict::Stop);
}

#[test]
fn attempts_restarts_up_to_max_times() {
    let mut supervisor = Supervisor::new(RestartPolicy::attempts(3));
    for _ in 0..3 {
        assert_eq!(supervisor.supervise_service(ServiceExit::Panicked, secs(1)), Verdict::Restart);
    }
    assert_eq!(supervisor.supervise_service(ServiceExit::Panicked, secs(1)), Verdict::GiveUp);
    assert_eq!(supervisor.attempts, 3);
}

#[test]
fn zero_attempts_gives_up_at_once() {
    let mut supervisor = Supervisor::new(RestartPolicy::attempts(0));
    assert_eq!(supervisor.supervise_service(ServiceExit::Panicked, secs(1)), Verdict::GiveUp);
}

#[test]
fn stable_run_resets_the_counter() {
    let mut supervisor = Supervisor::new(RestartPolicy::attempts(1));
    assert_eq!(supervisor.supervise_service(ServiceExit::Panicked, secs(1)), Verdict::Restart);
    assert_eq!(supervisor.supervise_service(ServiceExit::Panicked, secs(60)), Verdict::Restart);
    assert_eq!(
        supervisor.supervise_service(ServiceExit::Panicked, Duration::from_millis(59_999)),
        Verdict::GiveUp
    );
}

#[test]
fn without_a_window_the_counter_never_resets() {
    let mut supervisor =
        Supervisor::new(RestartPolicy::Attempts { max: 1, reset_after: None });
    assert_eq!(supervisor.supervise_service(ServiceExit::Panicked, secs(9999)), Verdict::Restart);
    assert_eq!(supervisor.supervise_service(ServiceExit::Panicked, secs(9999)), Verdict::GiveUp);
}

#[test]
fn cancellation_is_no_failure() {
    let mut supervisor = Supervisor::new(RestartPolicy::Always);
    assert_eq!(supervisor.supervise_service(ServiceExit::Cancelled, secs(1)), Verdict::Stop);
    assert_eq!(supervisor.supervise_system(&SystemExit::Cancelled, secs(1)), Verdict::Stop);
}

#[test]
fn systems_restart_on_errors_and_panics() {
    let mut supervisor = Supervisor::new(RestartPolicy::attempts(2));
    let failed = SystemExit::Returned(SystemResult::Failed("boom".to_string()));
    assert_eq!(supervisor.supervise_system(&failed, secs(1)), Verdict::Restart);
    assert_eq!(supervisor.supervise_system(&SystemExit::Panicked, secs(1)), Verdict::Restart);
    assert_eq!(supervisor.supervise_system(&failed, secs(1)), Verdict::GiveUp);
    let completed = SystemExit::Returned(SystemResult::Completed);
    assert_eq!(supervisor.supervise_system(&completed, secs(1)), Verdict::Stop);
}

#[test]
fn lengths_of_time_compare_exactly() {
    assert!(archy_core::time::at_least(secs(1), Duration::from_nanos(1_000_000_000)));
    assert!(!archy_core::time::at_least(Duration::from_nanos(999_999_999), secs(1)));
}

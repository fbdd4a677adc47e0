use weaver::footer::ConfigFooter;
use weaver::health::{
    evaluate_health_status, force_kill_delay, health_check_interval, monitor_enabled,
    overload_kill_wait_duration, should_enable_health_monitoring, supervisor_step,
    HealthCheckResult, HealthStatus, SupervisorAction,
};
use weaver::launcher::{
    after_base_exit, base_exit_code, health_env_var, judge_overload, launch_plan, overload_gate,
    posix_shm_name, windows_shm_name, ChildOutcome, LaunchError, SiblingCleanup,
};

fn healthy_status(now: i64) -> HealthStatus {
    HealthStatus {
        last_success: now,
        consecutive_failures: 0,
        is_alive: 1,
        should_kill_base: 0,
        parent_requests_kill: 0,
    }
}

#[test]
fn test_init_and_writer_exclusivity() {
    // The supervisor writes exactly one field; the overload's four are
    // untouched by the only supervisor-side mutation.
    let mut h = HealthStatus::init_health_status(1_700_000_000);
    assert_eq!(h.last_success, 1_700_000_000);
    assert_eq!(h.consecutive_failures, 0);
    assert_eq!(h.is_alive, 1);
    assert_eq!(h.should_kill_base, 0);
    assert_eq!(h.parent_requests_kill, 0);

    h.consecutive_failures = 2;
    h.should_kill_base = 1;
    let before = h;
    h.signal_overload_to_kill();
    assert_eq!(h.parent_requests_kill, 1);
    assert_eq!(h.last_success, before.last_success);
    assert_eq!(h.consecutive_failures, before.consecutive_failures);
    assert_eq!(h.is_alive, before.is_alive);
    assert_eq!(h.should_kill_base, before.should_kill_base);
}

#[test]
fn test_monitoring_enable_rules() {
    // Async with no policy set: no supervisor.
    assert!(!should_enable_health_monitoring(false, 0, 0));
    // Sync mode: never, whatever the policies say.
    assert!(!should_enable_health_monitoring(true, 30, 5));
    assert!(!monitor_enabled(true, true, 30, 5));
    // Async with either policy: enabled.
    assert!(should_enable_health_monitoring(false, 30, 0));
    assert!(should_enable_health_monitoring(false, 0, 5));
    // But the worker still needs the region to have come up.
    assert!(!monitor_enabled(false, false, 30, 5));
    assert!(monitor_enabled(false, true, 30, 5));
}

#[test]
fn test_launch_plan_from_footer() {
    let sync = ConfigFooter::for_layout(0, 0, 0, 0, 30, true, 5);
    let p = launch_plan(&sync);
    assert!(p.sync_mode);
    assert!(!p.health_region);

    let quiet = ConfigFooter::for_layout(0, 0, 0, 0, 0, false, 0);
    let p = launch_plan(&quiet);
    assert!(!p.sync_mode);
    assert!(!p.health_region);

    let monitored = ConfigFooter::for_layout(0, 0, 0, 0, 3, false, 0);
    let p = launch_plan(&monitored);
    assert!(!p.sync_mode);
    assert!(p.health_region);
}

#[test]
fn test_grace_period_trip() {
    let mut h = healthy_status(1000);
    h.last_success = 1000;
    let r = evaluate_health_status(&h, 1004, 3, 0);
    assert_eq!(r, HealthCheckResult::GracePeriodExceeded { time_since_success: 4, grace_period: 3 });
    // Exactly at the boundary the grace period still holds.
    let r = evaluate_health_status(&h, 1003, 3, 0);
    assert_eq!(r, HealthCheckResult::Healthy);
    // A grace period of zero disables the check.
    let r = evaluate_health_status(&h, 2000, 0, 0);
    assert_eq!(r, HealthCheckResult::Healthy);
}

#[test]
fn test_network_failure_threshold() {
    let mut h = healthy_status(1000);
    h.consecutive_failures = 5;
    let r = evaluate_health_status(&h, 1001, 0, 3);
    assert_eq!(r, HealthCheckResult::NetworkFailureThreshold { failures: 5, threshold: 3 });
    // Below the threshold nothing happens.
    h.consecutive_failures = 2;
    let r = evaluate_health_status(&h, 1001, 0, 3);
    assert_eq!(r, HealthCheckResult::Healthy);
    // A threshold of zero disables the check.
    h.consecutive_failures = 100;
    let r = evaluate_health_status(&h, 1001, 0, 0);
    assert_eq!(r, HealthCheckResult::Healthy);
}

#[test]
fn test_kill_request_and_heartbeat() {
    let mut h = healthy_status(1000);
    h.should_kill_base = 1;
    let r = evaluate_health_status(&h, 1001, 0, 0);
    assert_eq!(r, HealthCheckResult::OverloadRequestedKill);

    let mut h = healthy_status(1000);
    h.is_alive = 0;
    let r = evaluate_health_status(&h, 1001, 0, 0);
    assert_eq!(r, HealthCheckResult::HeartbeatLost);
}

#[test]
fn test_rule_precedence() {
    // All four triggers at once: the grace period wins.
    let h = HealthStatus {
        last_success: 0,
        consecutive_failures: 9,
        is_alive: 0,
        should_kill_base: 1,
        parent_requests_kill: 0,
    };
    let r = evaluate_health_status(&h, 100, 3, 3);
    assert_eq!(
        r,
        HealthCheckResult::GracePeriodExceeded { time_since_success: 100, grace_period: 3 }
    );
    // Without a grace policy, the failure threshold comes next.
    let r = evaluate_health_status(&h, 100, 0, 3);
    assert_eq!(r, HealthCheckResult::NetworkFailureThreshold { failures: 9, threshold: 3 });
    // Then the explicit kill request.
    let mut h2 = h;
    h2.consecutive_failures = 0;
    let r = evaluate_health_status(&h2, 100, 0, 3);
    assert_eq!(r, HealthCheckResult::OverloadRequestedKill);
}

#[test]
fn test_extreme_timestamps_are_tolerated() {
    // Torn or garbage region values must not break the evaluation.
    let mut h = healthy_status(0);
    h.last_success = i64::MIN;
    let r = evaluate_health_status(&h, i64::MAX, 10, 0);
    assert_eq!(
        r,
        HealthCheckResult::GracePeriodExceeded { time_since_success: i64::MAX, grace_period: 10 }
    );
    // A last_success in the future is simply not yet over the grace.
    let mut h = healthy_status(0);
    h.last_success = i64::MAX;
    let r = evaluate_health_status(&h, 0, 10, 0);
    assert_eq!(r, HealthCheckResult::Healthy);
}

#[test]
fn test_supervisor_step_transitions() {
    let h = healthy_status(1000);
    // Base pid not yet published: keep waiting.
    let a = supervisor_step(false, true, &h, 1001, 3, 3);
    assert_eq!(a, SupervisorAction::KeepWatching);
    // Base died on its own: stop.
    let a = supervisor_step(true, false, &h, 1001, 3, 3);
    assert_eq!(a, SupervisorAction::StopWatching);
    // Healthy region: keep watching.
    let a = supervisor_step(true, true, &h, 1001, 3, 3);
    assert_eq!(a, SupervisorAction::KeepWatching);

    // Grace trip becomes a direct termination.
    let mut stale = h;
    stale.last_success = 0;
    let a = supervisor_step(true, true, &stale, 1001, 3, 0);
    assert_eq!(
        a,
        SupervisorAction::TerminateBase {
            reason: HealthCheckResult::GracePeriodExceeded {
                time_since_success: 1001,
                grace_period: 3,
            },
        }
    );

    // Failure threshold goes through the overload first.
    let mut failing = h;
    failing.consecutive_failures = 5;
    let a = supervisor_step(true, true, &failing, 1001, 0, 3);
    assert_eq!(a, SupervisorAction::SignalOverloadThenTerminate { failures: 5, threshold: 3 });
}

#[test]
fn test_supervisor_timings() {
    assert_eq!(health_check_interval(), 5);
    assert_eq!(overload_kill_wait_duration(), 15);
    assert_eq!(force_kill_delay(), 100);
}

#[test]
fn test_current_time_is_nonnegative() {
    assert!(weaver::health::current_time() >= 0);
}

#[test]
fn test_base_exit_code_mapping() {
    assert_eq!(base_exit_code(ChildOutcome::Exited(0)), 0);
    assert_eq!(base_exit_code(ChildOutcome::Exited(7)), 7);
    assert_eq!(base_exit_code(ChildOutcome::Signaled(9)), -1);
    assert_eq!(base_exit_code(ChildOutcome::Signaled(15)), -1);
    assert_eq!(base_exit_code(ChildOutcome::Other), -1);
}

#[test]
fn test_sync_verification_gate() {
    // A clean overload exit lets the base start.
    assert!(judge_overload(ChildOutcome::Exited(0)).is_ok());
    // A nonzero exit is recorded with its code, and the base never starts.
    assert_eq!(
        judge_overload(ChildOutcome::Exited(2)).unwrap_err(),
        LaunchError::VerificationFailed { exit_code: 2 }
    );
    assert_eq!(
        overload_gate(true, ChildOutcome::Exited(2)).unwrap_err(),
        LaunchError::VerificationFailed { exit_code: 2 }
    );
    // A signalled overload fails abnormally.
    assert_eq!(
        overload_gate(true, ChildOutcome::Signaled(11)).unwrap_err(),
        LaunchError::VerificationAbnormal
    );
    // Async mode never gates the base on the overload.
    assert!(overload_gate(false, ChildOutcome::Exited(2)).is_ok());
    assert!(overload_gate(false, ChildOutcome::Signaled(9)).is_ok());
}

#[test]
fn test_sibling_cleanup_after_base() {
    // However the base ended, a recorded overload is terminated.
    assert_eq!(
        after_base_exit(Some(4321)),
        SiblingCleanup::TerminateOverload { pid: 4321 }
    );
    // In sync mode the overload was already reaped before the base ran.
    assert_eq!(after_base_exit(None), SiblingCleanup::NothingToClean);
}

#[test]
fn test_region_names_and_env_var() {
    assert_eq!(health_env_var(), "KILLCODE_HEALTH_SHM");
    assert_eq!(posix_shm_name(1234), "/overload_health_1234");
    assert_eq!(posix_shm_name(0), "/overload_health_0");
    assert_eq!(windows_shm_name(98765), "Local\\OverloadHealth_98765");
}

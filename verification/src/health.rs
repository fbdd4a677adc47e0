//! The cross-process health region and the supervisor's decision rules.
//!
//! The region itself lives in process-shared memory at runtime; every
//! field is a plain integer with a single designated writer, and readers
//! treat whatever they observe as advisory.  The supervisor's rules are
//! pure functions of a snapshot of those fields, the current time and
//! the configured policy, so they are stated and verified here over a
//! plain record of the five fields.

use vstd::prelude::*;

verus! {

/// Snapshot of the process-shared health region.
///
/// Writers: the overload payload owns `last_success`,
/// `consecutive_failures`, `is_alive` and `should_kill_base`; the
/// supervisor owns `parent_requests_kill`.
#[derive(Clone, Copy, Debug, PartialEq, Eq, Structural)]
pub struct HealthStatus {
    /// Seconds since the epoch of the overload's last successful check.
    pub last_success: i64,
    /// Counter of consecutive network failures reported by the overload.
    pub consecutive_failures: i32,
    /// Heartbeat flag: nonzero while the overload considers itself alive.
    pub is_alive: i32,
    /// Set by the overload to request termination of the base payload.
    pub should_kill_base: i32,
    /// Set by the supervisor to ask the overload to act on the base.
    pub parent_requests_kill: i32,
}

/// What one supervisor evaluation of the health region concluded.
#[derive(Clone, Copy, Debug, PartialEq, Eq, Structural)]
pub enum HealthCheckResult {
    /// Everything is fine; keep monitoring.
    Healthy,
    /// No success was reported within the grace period; kill the base.
    GracePeriodExceeded { time_since_success: i64, grace_period: u32 },
    /// Too many consecutive failures; ask the overload to act, then fall back.
    NetworkFailureThreshold { failures: i32, threshold: u32 },
    /// The overload asked for the base to be terminated.
    OverloadRequestedKill,
    /// The overload's heartbeat is gone; kill the base.
    HeartbeatLost,
}

/// Health monitoring runs only in async mode and only when at least one
/// policy is switched on.
pub open spec fn spec_should_enable_health_monitoring(
    sync_mode: bool,
    grace_period: u32,
    network_failure_kill_count: u32,
) -> bool {
    !sync_mode && (grace_period > 0 || network_failure_kill_count > 0)
}

/// Decide whether the health supervisor is wanted for this configuration.
pub fn should_enable_health_monitoring(
    sync_mode: bool,
    grace_period: u32,
    network_failure_kill_count: u32,
) -> (enabled: bool)
    ensures
        enabled == spec_should_enable_health_monitoring(
            sync_mode,
            grace_period,
            network_failure_kill_count,
        ),
{
    !sync_mode && (grace_period > 0 || network_failure_kill_count > 0)
}

/// The supervisor worker runs only when monitoring is wanted and the
/// health region was actually created and mapped.
pub open spec fn spec_monitor_enabled(
    sync_mode: bool,
    health_region_ok: bool,
    grace_period: u32,
    network_failure_kill_count: u32,
) -> bool {
    !sync_mode && health_region_ok && (grace_period > 0 || network_failure_kill_count > 0)
}

/// Decide whether to start the supervisor worker, given whether the
/// health region came up.
pub fn monitor_enabled(
    sync_mode: bool,
    health_region_ok: bool,
    grace_period: u32,
    network_failure_kill_count: u32,
) -> (enabled: bool)
    ensures
        enabled == spec_monitor_enabled(
            sync_mode,
            health_region_ok,
            grace_period,
            network_failure_kill_count,
        ),
{
    !sync_mode && health_region_ok && (grace_period > 0 || network_failure_kill_count > 0)
}

impl HealthStatus {
    /// The region's state right after creation, before the overload
    /// child is launched: heartbeat set, no failures, no kill requests,
    /// and the creation instant counted as the last success.
    pub fn init_health_status(now: i64) -> (h: HealthStatus)
        ensures
            h.last_success == now,
            h.consecutive_failures == 0,
            h.is_alive == 1,
            h.should_kill_base == 0,
            h.parent_requests_kill == 0,
    {
        HealthStatus {
            last_success: now,
            consecutive_failures: 0,
            is_alive: 1,
            should_kill_base: 0,
            parent_requests_kill: 0,
        }
    }

    /// Ask the overload to act on the base: the one field the
    /// supervisor writes.  Every other field is left untouched.
    pub fn signal_overload_to_kill(&mut self)
        ensures
            final (self).parent_requests_kill == 1,
            final (self).last_success == old(self).last_success,
            final (self).consecutive_failures == old(self).consecutive_failures,
            final (self).is_alive == old(self).is_alive,
            final (self).should_kill_base == old(self).should_kill_base,
    {
        self.parent_requests_kill = 1;
    }
}

/// `x` forced into the `i64` range, keeping its order relative to any
/// value already in that range.
pub open spec fn spec_saturate_i64(x: int) -> i64 {
    if x > i64::MAX {
        i64::MAX
    } else if x < i64::MIN {
        i64::MIN
    } else {
        x as i64
    }
}

/// The rule the supervisor applies to one snapshot, in fixed
/// precedence: grace period, failure threshold, kill request, lost
/// heartbeat.  The reported time since success saturates at the `i64`
/// bounds, which preserves every comparison against a `u32` grace
/// period.
pub open spec fn spec_evaluate_health_status(
    status: HealthStatus,
    now: i64,
    grace_period: u32,
    network_failure_kill_count: u32,
) -> HealthCheckResult {
    let elapsed = now - status.last_success;
    if grace_period > 0 && elapsed > grace_period {
        HealthCheckResult::GracePeriodExceeded {
            time_since_success: spec_saturate_i64(elapsed),
            grace_period,
        }
    } else if network_failure_kill_count > 0 && status.consecutive_failures
        >= network_failure_kill_count {
        HealthCheckResult::NetworkFailureThreshold {
            failures: status.consecutive_failures,
            threshold: network_failure_kill_count,
        }
    } else if status.should_kill_base != 0 {
        HealthCheckResult::OverloadRequestedKill
    } else if status.is_alive == 0 {
        HealthCheckResult::HeartbeatLost
    } else {
        HealthCheckResult::Healthy
    }
}

/// Apply the supervisor's rules to one snapshot of the health region,
/// taken at time `now`.
pub fn evaluate_health_status(
    status: &HealthStatus,
    now: i64,
    grace_period: u32,
    network_failure_kill_count: u32,
) -> (r: HealthCheckResult)
    ensures
        r == spec_evaluate_health_status(
            *status,
            now,
            grace_period,
            network_failure_kill_count,
        ),
{
    let time_since_success: i64 = match now.checked_sub(status.last_success) {
        Some(d) => d,
        None => {
            if status.last_success < 0 {
                i64::MAX
            } else {
                i64::MIN
            }
        },
    };
    if grace_period > 0 && time_since_success > grace_period as i64 {
        return HealthCheckResult::GracePeriodExceeded {
            time_since_success,
            grace_period,
        };
    }
    if network_failure_kill_count > 0 && (status.consecutive_failures as i64)
        >= (network_failure_kill_count as i64) {
        return HealthCheckResult::NetworkFailureThreshold {
            failures: status.consecutive_failures,
            threshold: network_failure_kill_count,
        };
    }
    if status.should_kill_base != 0 {
        return HealthCheckResult::OverloadRequestedKill;
    }
    if status.is_alive == 0 {
        return HealthCheckResult::HeartbeatLost;
    }
    HealthCheckResult::Healthy
}

/// What the supervisor does after one wake-up.
#[derive(Clone, Copy, Debug, PartialEq, Eq, Structural)]
pub enum SupervisorAction {
    /// Sleep for the next interval and look again.
    KeepWatching,
    /// The base is gone; the supervisor is done.
    StopWatching,
    /// Terminate the base through the escalation protocol, then stop.
    TerminateBase { reason: HealthCheckResult },
    /// Set `parent_requests_kill`, grant the overload its window, then
    /// terminate the base as a fallback and stop.
    SignalOverloadThenTerminate { failures: i32, threshold: u32 },
}

/// The supervisor's whole per-wake-up decision: skip until the base
/// child id is published, stop once the base is gone, and otherwise act
/// on the health evaluation.
pub open spec fn spec_supervisor_step(
    base_published: bool,
    base_alive: bool,
    status: HealthStatus,
    now: i64,
    grace_period: u32,
    network_failure_kill_count: u32,
) -> SupervisorAction {
    if !base_published {
        SupervisorAction::KeepWatching
    } else if !base_alive {
        SupervisorAction::StopWatching
    } else {
        match spec_evaluate_health_status(status, now, grace_period, network_failure_kill_count) {
            HealthCheckResult::Healthy => SupervisorAction::KeepWatching,
            HealthCheckResult::NetworkFailureThreshold { failures, threshold } =>
                SupervisorAction::SignalOverloadThenTerminate { failures, threshold },
            r => SupervisorAction::TerminateBase { reason: r },
        }
    }
}

/// Decide the supervisor's next action after one wake-up.
pub fn supervisor_step(
    base_published: bool,
    base_alive: bool,
    status: &HealthStatus,
    now: i64,
    grace_period: u32,
    network_failure_kill_count: u32,
) -> (a: SupervisorAction)
    ensures
        a == spec_supervisor_step(
            base_published,
            base_alive,
            *status,
            now,
            grace_period,
            network_failure_kill_count,
        ),
{
    if !base_published {
        return SupervisorAction::KeepWatching;
    }
    if !base_alive {
        return SupervisorAction::StopWatching;
    }
    match evaluate_health_status(status, now, grace_period, network_failure_kill_count) {
        HealthCheckResult::Healthy => SupervisorAction::KeepWatching,
        HealthCheckResult::NetworkFailureThreshold { failures, threshold } =>
            SupervisorAction::SignalOverloadThenTerminate { failures, threshold },
        r => SupervisorAction::TerminateBase { reason: r },
    }
}

/// Seconds between supervisor wake-ups.
pub fn health_check_interval() -> (secs: u64)
    ensures
        secs == 5,
{
    5
}

/// Seconds granted to the overload to act after `parent_requests_kill`
/// is set, before the supervisor falls back to killing the base itself.
pub fn overload_kill_wait_duration() -> (secs: u64)
    ensures
        secs == 15,
{
    15
}

/// Milliseconds between SIGTERM and the SIGKILL fallback when
/// force-killing a child.
pub fn force_kill_delay() -> (millis: u64)
    ensures
        millis == 100,
{
    100
}

/// Seconds since the Unix epoch, or 0 when the clock reads before it.
///
/// Relies on std's `SystemTime::now` and `duration_since`: the time
/// since the epoch as whole seconds, with a pre-epoch clock mapped to
/// zero by `unwrap_or_default` and the conversion to `i64` saturating,
/// so the result is never negative.  Nothing more can be promised of a
/// clock reading.
#[verifier::external_body]
pub fn current_time() -> (now: i64)
    ensures
        now >= 0,
{
    let secs = std::time::SystemTime::now()
        .duration_since(std::time::UNIX_EPOCH)
        .unwrap_or_default()
        .as_secs();
    secs.min(i64::MAX as u64) as i64
}

/// Async supervision with both policies at zero never starts a
/// supervisor: the base then runs to natural completion.
pub proof fn lemma_no_policy_no_supervisor(sync_mode: bool, health_region_ok: bool)
    ensures
        !spec_should_enable_health_monitoring(sync_mode, 0, 0),
        !spec_monitor_enabled(sync_mode, health_region_ok, 0, 0),
{
}

/// Sync mode never enables health monitoring: no health region is
/// created, no region name is published, and no supervisor starts,
/// whatever the policy values say.
pub proof fn lemma_sync_mode_no_supervision(
    health_region_ok: bool,
    grace_period: u32,
    network_failure_kill_count: u32,
)
    ensures
        !spec_should_enable_health_monitoring(true, grace_period, network_failure_kill_count),
        !spec_monitor_enabled(
            true,
            health_region_ok,
            grace_period,
            network_failure_kill_count,
        ),
{
}

} // verus!


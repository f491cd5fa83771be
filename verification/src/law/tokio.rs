//! Observations for concurrency laws, and a Loom model-checking adapter.
//!
//! Application crates run their own async or multi-threaded scenario, report
//! what happened as a plain observation value, and use the verified check
//! functions here to decide whether the corresponding law held.  Each check
//! function's postcondition states the law exactly.

use vstd::prelude::*;

verus! {

/// Application-defined model runnable under Loom's exhaustive scheduler.
pub trait TokioLoomModel: Send + Sync + 'static {
    /// Execute the model body under Loom instrumentation.
    fn run_model(&self);
}

/// Relies on loom::model: runs the model body under all explored thread
/// schedules and panics if any schedule panics.
#[verifier::external_body]
pub fn assert_loom_model<M>(model: M) where M: TokioLoomModel {
    let model = std::sync::Arc::new(model);
    loom::model(move || {
        model.run_model();
    });
}

/// Observable outcomes for partial read/write handling checks.
#[derive(Debug, Clone, Copy, PartialEq, Eq, Structural)]
pub struct PartialIoObservation {
    /// Number of bytes the scenario expected to transfer.
    pub expected_bytes: usize,
    /// Number of bytes the scenario actually transferred.
    pub observed_bytes: usize,
    /// Number of partial read events observed.
    pub partial_read_events: usize,
    /// Number of partial write events observed.
    pub partial_write_events: usize,
}

/// Decides whether a partial-I/O scenario lost bytes, and (optionally)
/// whether it exercised partial reads or writes at all.
pub fn check_partial_io(observation: &PartialIoObservation, require_partial_events: bool) -> (ok:
    bool)
    ensures
        ok == (observation.expected_bytes == observation.observed_bytes && (require_partial_events
            ==> observation.partial_read_events > 0 || observation.partial_write_events > 0)),
{
    let transferred = observation.expected_bytes == observation.observed_bytes;
    let exercised = observation.partial_read_events > 0 || observation.partial_write_events > 0;
    transferred && (!require_partial_events || exercised)
}

/// Observable outcomes for transient error retry checks.
#[derive(Debug, Clone, Copy, PartialEq, Eq, Structural)]
pub struct TransientIoRetryObservation {
    /// Number of transient errors encountered.
    pub transient_errors: usize,
    /// Number of permanent errors encountered.
    pub permanent_errors: usize,
    /// Number of retry attempts performed.
    pub retry_attempts: usize,
    /// Whether the operation succeeded eventually.
    pub succeeded: bool,
}

/// Decides whether transient errors were retried within the budget and the
/// operation eventually succeeded, with no permanent error observed.
pub fn check_transient_retry(observation: &TransientIoRetryObservation, max_retries: usize) -> (ok:
    bool)
    ensures
        ok == (observation.permanent_errors == 0 && (observation.transient_errors > 0
            ==> observation.retry_attempts >= observation.transient_errors)
            && observation.retry_attempts <= max_retries && observation.succeeded),
{
    observation.permanent_errors == 0 && (observation.transient_errors == 0
        || observation.retry_attempts >= observation.transient_errors)
        && observation.retry_attempts <= max_retries && observation.succeeded
}

/// Observable outcomes for channel integrity checks.
#[derive(Debug, Clone, Copy, PartialEq, Eq, Structural)]
pub struct ChannelIntegrityObservation {
    /// Number of messages sent.
    pub sent_messages: usize,
    /// Number of messages received.
    pub received_messages: usize,
    /// Number of duplicate message deliveries observed.
    pub duplicate_messages: usize,
    /// Number of missing/dropped messages observed.
    pub dropped_messages: usize,
}

/// Decides whether a channel scenario dropped or duplicated messages.
pub fn check_channel_integrity(observation: &ChannelIntegrityObservation) -> (ok: bool)
    ensures
        ok == (observation.duplicate_messages == 0 && observation.dropped_messages == 0
            && observation.sent_messages == observation.received_messages),
{
    observation.duplicate_messages == 0 && observation.dropped_messages == 0
        && observation.sent_messages == observation.received_messages
}

/// Observable outcomes for channel backpressure checks.
#[derive(Debug, Clone, Copy, PartialEq, Eq, Structural)]
pub struct ChannelBackpressureObservation {
    /// Configured channel capacity.
    pub channel_capacity: usize,
    /// Maximum number of in-flight items observed.
    pub max_in_flight: usize,
    /// Number of producer wait/block events observed.
    pub producer_wait_events: usize,
}

/// Decides whether a bounded-channel scenario stayed within its capacity,
/// and (optionally) whether producers were ever made to wait.
pub fn check_channel_backpressure(
    observation: &ChannelBackpressureObservation,
    must_observe_wait: bool,
) -> (ok: bool)
    ensures
        ok == (observation.max_in_flight <= observation.channel_capacity && (must_observe_wait
            ==> observation.producer_wait_events > 0)),
{
    observation.max_in_flight <= observation.channel_capacity && (!must_observe_wait
        || observation.producer_wait_events > 0)
}

/// Observable outcomes for permit accounting checks.
#[derive(Debug, Clone, Copy, PartialEq, Eq, Structural)]
pub struct PermitAccountingObservation {
    /// Number of permits acquired.
    pub acquired_permits: usize,
    /// Number of permits released.
    pub released_permits: usize,
    /// Number of permits still held when the scenario completes.
    pub outstanding_permits: usize,
}

/// Decides whether permit accounting balanced with no leaked permit.
pub fn check_permit_accounting(observation: &PermitAccountingObservation) -> (ok: bool)
    ensures
        ok == (observation.outstanding_permits == 0 && observation.acquired_permits
            == observation.released_permits),
{
    observation.outstanding_permits == 0 && observation.acquired_permits
        == observation.released_permits
}

/// Observable outcomes for timeout behavior checks, with durations in
/// milliseconds.
#[derive(Debug, Clone, Copy, PartialEq, Eq, Structural)]
pub struct TimeoutObservation {
    /// Timeout configured by the scenario, in milliseconds.
    pub timeout_ms: u64,
    /// Wall-clock elapsed duration observed by the scenario, in
    /// milliseconds.
    pub elapsed_ms: u64,
    /// Whether the operation timed out.
    pub timed_out: bool,
    /// Whether the operation still completed after timeout cancellation.
    pub completed_after_timeout: bool,
}

/// Decides whether a timeout scenario timed out as expected, did not
/// complete afterwards, and stayed within the allowed scheduling overrun.
pub fn check_timeout_behavior(observation: &TimeoutObservation, max_overrun_ms: u64) -> (ok: bool)
    ensures
        ok == (observation.timed_out && !observation.completed_after_timeout
            && observation.elapsed_ms <= observation.timeout_ms + max_overrun_ms),
{
    let within_overrun = if max_overrun_ms > u64::MAX - observation.timeout_ms {
        true
    } else {
        observation.elapsed_ms <= observation.timeout_ms + max_overrun_ms
    };
    observation.timed_out && !observation.completed_after_timeout && within_overrun
}

/// Observable outcomes for retry backoff delay checks, with delays in
/// milliseconds.
#[derive(Debug, Clone, PartialEq, Eq)]
pub struct BackoffObservation {
    /// Attempt-to-attempt delays observed in the scenario, in
    /// milliseconds.
    pub delays_ms: Vec<u64>,
}

/// Decides whether backoff delays were reported at all, stayed within
/// the inclusive bounds, and never shrank between attempts.
pub fn check_backoff_bounds(
    observation: &BackoffObservation,
    min_delay_ms: u64,
    max_delay_ms: u64,
) -> (ok: bool)
    ensures
        ok == (observation.delays_ms@.len() > 0 && (forall|i: int|
            0 <= i < observation.delays_ms@.len() ==> min_delay_ms
                <= #[trigger] observation.delays_ms@[i] <= max_delay_ms) && (forall|i: int|
            0 <= i < observation.delays_ms@.len() - 1 ==> #[trigger] observation.delays_ms@[i]
                <= observation.delays_ms@[i + 1])),
{
    let n = observation.delays_ms.len();
    if n == 0 {
        return false;
    }
    let mut i: usize = 0;
    while i < n
        invariant
            n == observation.delays_ms@.len(),
            i <= n,
            forall|k: int|
                0 <= k < i ==> min_delay_ms <= #[trigger] observation.delays_ms@[k]
                    <= max_delay_ms,
            forall|k: int|
                0 <= k < i - 1 ==> #[trigger] observation.delays_ms@[k]
                    <= observation.delays_ms@[k + 1],
        decreases n - i,
    {
        let d = observation.delays_ms[i];
        if !(min_delay_ms <= d && d <= max_delay_ms) {
            return false;
        }
        if i > 0 {
            if observation.delays_ms[i - 1] > d {
                proof {
                    assert(observation.delays_ms@[i - 1] > observation.delays_ms@[i as int]);
                }
                return false;
            }
            proof {
                assert(forall|k: int|
                    0 <= k < i ==> #[trigger] observation.delays_ms@[k]
                        <= observation.delays_ms@[k + 1]);
            }
        }
        i += 1;
    }
    true
}

/// Observable outcomes for interval drift checks, with drifts in
/// milliseconds.
#[derive(Debug, Clone, PartialEq, Eq)]
pub struct IntervalDriftObservation {
    /// Absolute drift observed for each tick, in milliseconds.
    pub absolute_drifts_ms: Vec<u64>,
}

/// Decides whether an interval schedule reported ticks at all and every
/// tick's drift stayed within the tolerance.
pub fn check_interval_drift(observation: &IntervalDriftObservation, max_drift_ms: u64) -> (ok:
    bool)
    ensures
        ok == (observation.absolute_drifts_ms@.len() > 0 && forall|i: int|
            0 <= i < observation.absolute_drifts_ms@.len()
                ==> #[trigger] observation.absolute_drifts_ms@[i] <= max_drift_ms),
{
    let n = observation.absolute_drifts_ms.len();
    if n == 0 {
        return false;
    }
    let mut i: usize = 0;
    while i < n
        invariant
            n == observation.absolute_drifts_ms@.len(),
            i <= n,
            forall|k: int|
                0 <= k < i ==> #[trigger] observation.absolute_drifts_ms@[k] <= max_drift_ms,
        decreases n - i,
    {
        if observation.absolute_drifts_ms[i] > max_drift_ms {
            return false;
        }
        i += 1;
    }
    true
}

/// Observable outcomes for a cancellation safety scenario.
#[derive(Debug, Clone, Copy, PartialEq, Eq, Structural)]
pub struct CancellationSafetyObservation {
    /// Number of panics observed while cancellation was exercised.
    pub panicked_tasks: usize,
    /// Number of tasks that completed after cancellation was requested.
    pub completed_after_cancel: usize,
    /// Number of side effects observed after cancellation was requested.
    pub side_effects_after_cancel: usize,
}

/// Decides whether cancellation avoided panics, late completions, and
/// post-cancel side effects.
pub fn check_cancellation_safety(observation: &CancellationSafetyObservation) -> (ok: bool)
    ensures
        ok == (observation.panicked_tasks == 0 && observation.completed_after_cancel == 0
            && observation.side_effects_after_cancel == 0),
{
    observation.panicked_tasks == 0 && observation.completed_after_cancel == 0
        && observation.side_effects_after_cancel == 0
}

/// Observable outcomes for task leak checks.
#[derive(Debug, Clone, Copy, PartialEq, Eq, Structural)]
pub struct TaskLeakObservation {
    /// Number of tasks spawned by the scenario.
    pub spawned_tasks: usize,
    /// Number of tasks that completed normally.
    pub finished_tasks: usize,
    /// Number of tasks that were cancelled or aborted explicitly.
    pub aborted_tasks: usize,
    /// Number of tasks detached without a terminal outcome.
    pub detached_tasks: usize,
}

/// Decides whether task accounting balanced with no detached task.
pub fn check_task_accounting(observation: &TaskLeakObservation) -> (ok: bool)
    ensures
        ok == (observation.detached_tasks == 0 && observation.spawned_tasks
            == observation.finished_tasks + observation.aborted_tasks),
{
    observation.detached_tasks == 0 && observation.finished_tasks
        <= usize::MAX - observation.aborted_tasks && observation.spawned_tasks
        == observation.finished_tasks + observation.aborted_tasks
}

/// Observable outcomes for graceful shutdown scenarios.
#[derive(Debug, Clone, Copy, PartialEq, Eq, Structural)]
pub struct GracefulShutdownObservation {
    /// Number of in-flight tasks when shutdown started.
    pub in_flight_tasks: usize,
    /// Number of tasks drained successfully before shutdown completion.
    pub drained_tasks: usize,
    /// Number of tasks force-stopped to complete shutdown.
    pub force_stopped_tasks: usize,
}

/// Decides whether shutdown drained every in-flight task without
/// force-stopping any.
pub fn check_graceful_shutdown(observation: &GracefulShutdownObservation) -> (ok: bool)
    ensures
        ok == (observation.force_stopped_tasks == 0 && observation.in_flight_tasks
            == observation.drained_tasks),
{
    observation.force_stopped_tasks == 0 && observation.in_flight_tasks
        == observation.drained_tasks
}

} // verus!

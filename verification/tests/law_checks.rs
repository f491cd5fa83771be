use kitchensink_testing::chaos::RetryEventuallySucceedsLaw;
use kitchensink_testing::chaos::RetryFallbackLaw;
use kitchensink_testing::chaos::assert_retries_to_expected_success;
use kitchensink_testing::chaos::assert_retry_fallback;
use kitchensink_testing::chaos::assert_retry_stops_after_permanent_error;
use kitchensink_testing::law::tokio::CancellationSafetyObservation;
use kitchensink_testing::law::tokio::ChannelBackpressureObservation;
use kitchensink_testing::law::tokio::ChannelIntegrityObservation;
use kitchensink_testing::law::tokio::GracefulShutdownObservation;
use kitchensink_testing::law::tokio::PartialIoObservation;
use kitchensink_testing::law::tokio::PermitAccountingObservation;
use kitchensink_testing::law::tokio::TaskLeakObservation;
use kitchensink_testing::law::tokio::TransientIoRetryObservation;
use kitchensink_testing::law::tokio::check_cancellation_safety;
use kitchensink_testing::law::tokio::check_channel_backpressure;
use kitchensink_testing::law::tokio::check_channel_integrity;
use kitchensink_testing::law::tokio::check_graceful_shutdown;
use kitchensink_testing::law::tokio::check_partial_io;
use kitchensink_testing::law::tokio::check_permit_accounting;
use kitchensink_testing::law::tokio::check_task_accounting;
use kitchensink_testing::law::tokio::check_transient_retry;
use kitchensink_testing::law::tokio::BackoffObservation;
use kitchensink_testing::law::tokio::IntervalDriftObservation;
use kitchensink_testing::law::tokio::TimeoutObservation;
use kitchensink_testing::law::tokio::check_backoff_bounds;
use kitchensink_testing::law::tokio::check_interval_drift;
use kitchensink_testing::law::tokio::check_timeout_behavior;
use std::cell::Cell;

#[test]
fn retry_until_success_returns_first_attempt_for_reliable_operation() {
    let attempts = assert_retries_to_expected_success(
        5,
        || Ok::<i32, String>(7),
        |_e: &String| true,
        7,
    );
    assert_eq!(attempts, 1);
}

#[test]
fn retry_law_wrapper_carries_its_name() {
    let law = RetryEventuallySucceedsLaw::new(3, || Ok::<i32, String>(1), |_e: &String| true, 1);
    assert_eq!(law.name(), "assert_retries_to_expected_success");
    law.check();
}

#[test]
fn retry_stops_at_first_permanent_error() {
    let calls = Cell::new(0usize);
    let attempts = assert_retry_stops_after_permanent_error(
        10,
        || {
            calls.set(calls.get() + 1);
            if calls.get() < 3 {
                Err::<(), &str>("transient")
            } else {
                Err("permanent")
            }
        },
        |e: &&str| *e == "transient",
    );
    assert_eq!(attempts, 3);
}

#[test]
fn retry_fallback_runs_fallback_after_exhausted_budget() {
    let fallback_seen = Cell::new(false);
    let attempts = assert_retry_fallback(
        4,
        || Err::<i32, &str>("transient"),
        |e: &&str| *e == "transient",
        || 42,
        |v: &i32| {
            assert_eq!(*v, 42);
            fallback_seen.set(true);
        },
    );
    assert_eq!(attempts, 4);
    assert!(fallback_seen.get());
}

#[test]
fn retry_fallback_law_wrapper_carries_its_name() {
    let law = RetryFallbackLaw::new(
        2,
        || Ok::<i32, &str>(1),
        |_e: &&str| true,
        || 0,
        |_v: &i32| {},
    );
    assert_eq!(law.name(), "assert_retry_fallback");
    law.check();
}

#[test]
fn io_law_checks_accept_healthy_observations() {
    let io = PartialIoObservation {
        expected_bytes: 512,
        observed_bytes: 512,
        partial_read_events: 2,
        partial_write_events: 1,
    };
    assert!(check_partial_io(&io, true));
    let lossy = PartialIoObservation {
        observed_bytes: 500,
        ..io
    };
    assert!(!check_partial_io(&lossy, false));

    let retry = TransientIoRetryObservation {
        transient_errors: 3,
        permanent_errors: 0,
        retry_attempts: 3,
        succeeded: true,
    };
    assert!(check_transient_retry(&retry, 5));
    assert!(!check_transient_retry(&retry, 2));
}

#[test]
fn sync_law_checks_accept_healthy_observations() {
    let channel = ChannelIntegrityObservation {
        sent_messages: 8,
        received_messages: 8,
        duplicate_messages: 0,
        dropped_messages: 0,
    };
    assert!(check_channel_integrity(&channel));
    assert!(!check_channel_integrity(&ChannelIntegrityObservation {
        dropped_messages: 1,
        ..channel
    }));

    let backpressure = ChannelBackpressureObservation {
        channel_capacity: 4,
        max_in_flight: 4,
        producer_wait_events: 2,
    };
    assert!(check_channel_backpressure(&backpressure, true));
    assert!(!check_channel_backpressure(
        &ChannelBackpressureObservation {
            max_in_flight: 5,
            ..backpressure
        },
        false
    ));

    let permits = PermitAccountingObservation {
        acquired_permits: 16,
        released_permits: 16,
        outstanding_permits: 0,
    };
    assert!(check_permit_accounting(&permits));
    assert!(!check_permit_accounting(&PermitAccountingObservation {
        outstanding_permits: 1,
        ..permits
    }));
}

#[test]
fn task_law_checks_accept_healthy_observations() {
    let cancel = CancellationSafetyObservation {
        panicked_tasks: 0,
        completed_after_cancel: 0,
        side_effects_after_cancel: 0,
    };
    assert!(check_cancellation_safety(&cancel));

    let tasks = TaskLeakObservation {
        spawned_tasks: 6,
        finished_tasks: 5,
        aborted_tasks: 1,
        detached_tasks: 0,
    };
    assert!(check_task_accounting(&tasks));
    assert!(!check_task_accounting(&TaskLeakObservation {
        detached_tasks: 1,
        ..tasks
    }));

    let shutdown = GracefulShutdownObservation {
        in_flight_tasks: 4,
        drained_tasks: 4,
        force_stopped_tasks: 0,
    };
    assert!(check_graceful_shutdown(&shutdown));
    assert!(!check_graceful_shutdown(&GracefulShutdownObservation {
        force_stopped_tasks: 1,
        ..shutdown
    }));
}

#[test]
fn time_law_checks_accept_healthy_observations() {
    let timeout = TimeoutObservation {
        timeout_ms: 50,
        elapsed_ms: 53,
        timed_out: true,
        completed_after_timeout: false,
    };
    assert!(check_timeout_behavior(&timeout, 5));
    assert!(!check_timeout_behavior(&timeout, 2));

    let backoff = BackoffObservation {
        delays_ms: vec![5, 10, 15],
    };
    assert!(check_backoff_bounds(&backoff, 1, 20));
    let shrinking = BackoffObservation {
        delays_ms: vec![10, 5],
    };
    assert!(!check_backoff_bounds(&shrinking, 1, 20));
    assert!(!check_backoff_bounds(&BackoffObservation { delays_ms: vec![] }, 1, 20));

    let drift = IntervalDriftObservation {
        absolute_drifts_ms: vec![1, 2, 3],
    };
    assert!(check_interval_drift(&drift, 5));
    assert!(!check_interval_drift(&drift, 2));
}

use kitchensink_testing::mutation::config::MutationConfig;
use kitchensink_testing::mutation::events::MutantSpec;
use kitchensink_testing::mutation::events::MutationEvent;
use kitchensink_testing::mutation::events::MutationOutcome;
use kitchensink_testing::mutation::events::MutationType;
use kitchensink_testing::mutation::runner::ResumePlan;
use kitchensink_testing::mutation::runner::RunCandidate;
use kitchensink_testing::mutation::runner::RunIdKey;
use kitchensink_testing::mutation::runner::is_newer_run_id;
use kitchensink_testing::mutation::runner::latest_completed_run_with_survivors_id;
use kitchensink_testing::mutation::runner::latest_incomplete_run_id;
use kitchensink_testing::mutation::runner::outcome_of_execution;
use kitchensink_testing::mutation::runner::parse_run_id_key;
use kitchensink_testing::mutation::runner::plan_rerun_survivors;
use kitchensink_testing::mutation::runner::plan_resume;
use kitchensink_testing::mutation::state::LogLine;
use kitchensink_testing::mutation::state::replay_log;

fn test_mutant(id: &str, label: &str, selector: &str) -> MutantSpec {
    MutantSpec {
        id: id.to_string(),
        label: label.to_string(),
        selector: selector.to_string(),
        source_file: String::new(),
        source_line: 0,
        mutation_type: MutationType::Unknown,
        original_code: String::new(),
        mutated_code: String::new(),
    }
}

fn discovered(run_id: &str, mutant: MutantSpec) -> LogLine {
    LogLine::Event(MutationEvent::MutantDiscovered {
        run_id: run_id.to_string(),
        timestamp_ms: 5,
        mutant,
    })
}

fn finished(run_id: &str, mutant_id: &str, outcome: MutationOutcome) -> LogLine {
    LogLine::Event(MutationEvent::MutantFinished {
        run_id: run_id.to_string(),
        timestamp_ms: 20,
        mutant_id: mutant_id.to_string(),
        outcome,
        exit_code: None,
        stdout_artifact_path: None,
        stderr_artifact_path: None,
        started_at_ms: None,
        finished_at_ms: None,
        duration_ms: None,
        tests_run: Vec::new(),
        tests_failed: Vec::new(),
        stdout_preview: None,
        stderr_preview: None,
    })
}

fn run_started(run_id: &str, count: usize) -> LogLine {
    LogLine::Event(MutationEvent::RunStarted {
        run_id: run_id.to_string(),
        timestamp_ms: 1,
        discovered: count,
        config: None,
        metadata: None,
    })
}

fn completed(run_id: &str) -> LogLine {
    LogLine::Event(MutationEvent::RunCompleted {
        run_id: run_id.to_string(),
        timestamp_ms: 99,
    })
}

#[test]
fn parse_run_id_key_accepts_well_formed_names() {
    let key = parse_run_id_key("run-1700000000123-4242-7").expect("key should parse");
    assert_eq!(key.timestamp_ms, 1_700_000_000_123);
    assert_eq!(key.pid, 4242);
    assert_eq!(key.sequence, 7);

    assert!(parse_run_id_key("run-1-2").is_none());
    assert!(parse_run_id_key("ran-1-2-3").is_none());
    assert!(parse_run_id_key("run-x-2-3").is_none());
    assert!(parse_run_id_key("not a run id").is_none());
}

#[test]
fn newer_run_ids_order_by_timestamp_pid_sequence() {
    let base = RunIdKey {
        timestamp_ms: 100,
        pid: 5,
        sequence: 1,
    };
    let newer_ts = RunIdKey {
        timestamp_ms: 101,
        ..base
    };
    let newer_pid = RunIdKey { pid: 6, ..base };
    let newer_seq = RunIdKey {
        sequence: 2,
        ..base
    };
    assert!(is_newer_run_id(&newer_ts, &base));
    assert!(is_newer_run_id(&newer_pid, &base));
    assert!(is_newer_run_id(&newer_seq, &base));
    assert!(!is_newer_run_id(&base, &base));
    assert!(!is_newer_run_id(&base, &newer_ts));
}

#[test]
fn resume_schedules_survivors_before_pending() {
    // A: survived, B: killed, C: pending.
    let lines = vec![
        run_started("run-priority", 3),
        discovered("run-priority", test_mutant("m1", "mutant-1", "sel1")),
        discovered("run-priority", test_mutant("m2", "mutant-2", "sel2")),
        discovered("run-priority", test_mutant("m3", "mutant-3", "sel3")),
        finished("run-priority", "m1", MutationOutcome::Survived),
        finished("run-priority", "m2", MutationOutcome::Killed),
    ];
    let snapshot = replay_log(&lines);
    match plan_resume(&snapshot) {
        ResumePlan::Execute(schedule) => {
            let ids: Vec<String> = schedule.into_iter().map(|m| m.id).collect();
            assert_eq!(ids, vec!["m1".to_string(), "m3".to_string()]);
        }
        ResumePlan::AlreadyComplete => panic!("expected work to schedule"),
    }
}

#[test]
fn resume_of_completed_run_without_survivors_changes_nothing() {
    let lines = vec![
        run_started("run-done", 1),
        discovered("run-done", test_mutant("m1", "mutant-1", "sel1")),
        finished("run-done", "m1", MutationOutcome::Killed),
        completed("run-done"),
    ];
    let snapshot = replay_log(&lines);
    assert!(matches!(plan_resume(&snapshot), ResumePlan::AlreadyComplete));
    // Replaying the unchanged log again yields the same snapshot.
    let again = replay_log(&lines);
    assert_eq!(snapshot.run_id, again.run_id);
    assert_eq!(snapshot.completed, again.completed);
    assert_eq!(snapshot.mutants.len(), again.mutants.len());
    assert_eq!(snapshot.mutants[0].status, again.mutants[0].status);
}

#[test]
fn resume_of_completed_run_with_survivors_schedules_only_survivors() {
    let lines = vec![
        run_started("run-surv", 2),
        discovered("run-surv", test_mutant("m1", "mutant-1", "sel1")),
        discovered("run-surv", test_mutant("m2", "mutant-2", "sel2")),
        finished("run-surv", "m1", MutationOutcome::Survived),
        finished("run-surv", "m2", MutationOutcome::Killed),
        completed("run-surv"),
    ];
    let snapshot = replay_log(&lines);
    match plan_resume(&snapshot) {
        ResumePlan::Execute(schedule) => {
            let ids: Vec<String> = schedule.into_iter().map(|m| m.id).collect();
            assert_eq!(ids, vec!["m1".to_string()]);
        }
        ResumePlan::AlreadyComplete => panic!("expected survivors to schedule"),
    }
}

#[test]
fn rerun_survivors_executes_only_survivor_queue() {
    let lines = vec![
        run_started("run-survivors-only", 2),
        discovered("run-survivors-only", test_mutant("m1", "mutant-1", "sel1")),
        discovered("run-survivors-only", test_mutant("m2", "mutant-2", "sel2")),
        finished("run-survivors-only", "m1", MutationOutcome::Survived),
    ];
    let snapshot = replay_log(&lines);
    match plan_rerun_survivors(&snapshot) {
        ResumePlan::Execute(schedule) => {
            let ids: Vec<String> = schedule.into_iter().map(|m| m.id).collect();
            assert_eq!(ids, vec!["m1".to_string()]);
        }
        ResumePlan::AlreadyComplete => panic!("expected survivors to schedule"),
    }
    assert_eq!(snapshot.pending_mutants().len(), 1);
}

#[test]
fn rerun_survivors_without_survivors_changes_nothing() {
    let lines = vec![
        run_started("run-clean", 1),
        discovered("run-clean", test_mutant("m1", "mutant-1", "sel1")),
        finished("run-clean", "m1", MutationOutcome::Killed),
        completed("run-clean"),
    ];
    let snapshot = replay_log(&lines);
    assert!(matches!(
        plan_rerun_survivors(&snapshot),
        ResumePlan::AlreadyComplete
    ));
}

#[test]
fn run_selection_prefers_newest_compatible_incomplete_run() {
    let config = MutationConfig::default();
    let older = RunCandidate {
        run_id: "run-100-1-0".to_string(),
        snapshot: replay_log(&vec![
            run_started("run-100-1-0", 1),
            discovered("run-100-1-0", test_mutant("m1", "mutant-1", "sel1")),
        ]),
    };
    let newer = RunCandidate {
        run_id: "run-200-1-0".to_string(),
        snapshot: replay_log(&vec![
            run_started("run-200-1-0", 1),
            discovered("run-200-1-0", test_mutant("m1", "mutant-1", "sel1")),
        ]),
    };
    let complete = RunCandidate {
        run_id: "run-300-1-0".to_string(),
        snapshot: replay_log(&vec![
            run_started("run-300-1-0", 1),
            discovered("run-300-1-0", test_mutant("m1", "mutant-1", "sel1")),
            finished("run-300-1-0", "m1", MutationOutcome::Killed),
            completed("run-300-1-0"),
        ]),
    };
    let candidates = vec![older, newer, complete];
    assert_eq!(
        latest_incomplete_run_id(&candidates, &config).as_deref(),
        Some("run-200-1-0")
    );
    assert_eq!(
        latest_completed_run_with_survivors_id(&candidates, &config),
        None
    );
}

#[test]
fn run_selection_finds_completed_run_with_survivors() {
    let config = MutationConfig::default();
    let done = RunCandidate {
        run_id: "run-100-1-0".to_string(),
        snapshot: replay_log(&vec![
            run_started("run-100-1-0", 1),
            discovered("run-100-1-0", test_mutant("m1", "mutant-1", "sel1")),
            finished("run-100-1-0", "m1", MutationOutcome::Survived),
            completed("run-100-1-0"),
        ]),
    };
    let candidates = vec![done];
    assert_eq!(
        latest_incomplete_run_id(&candidates, &config),
        None
    );
    assert_eq!(
        latest_completed_run_with_survivors_id(&candidates, &config).as_deref(),
        Some("run-100-1-0")
    );
}

#[test]
fn engine_failures_become_error_outcomes() {
    let err: Result<_, _> = Err(kitchensink_testing::mutation::engine::MutationEngineError::Unsupported(
        "forced error".to_string(),
    ));
    let result = outcome_of_execution(err);
    match result.outcome {
        MutationOutcome::Error { message } => {
            assert!(message.contains("forced error"));
            assert!(message.contains("unsupported cargo-mutants capability"));
        }
        other => panic!("expected error outcome, got {other:?}"),
    }
    assert_eq!(result.exit_code, None);
    assert_eq!(result.stdout, "");
    assert_eq!(result.stderr, "");
}

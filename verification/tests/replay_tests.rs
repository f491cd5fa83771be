use kitchensink_testing::mutation::events::MutantSpec;
use kitchensink_testing::mutation::events::MutationEvent;
use kitchensink_testing::mutation::events::MutationOutcome;
use kitchensink_testing::mutation::events::MutationType;
use kitchensink_testing::mutation::state::LogLine;
use kitchensink_testing::mutation::state::MutationStatus;
use kitchensink_testing::mutation::state::replay_log;

fn test_mutant(id: &str, label: &str, selector: &str) -> MutantSpec {
    MutantSpec {
        id: id.to_string(),
        label: label.to_string(),
        selector: selector.to_string(),
        source_file: String::new(),
        source_line: 0,
        mutation_type: MutationType::Unknown,
        original_code: String::new(),
        mutated_code: String::new(),
    }
}

fn started(run_id: &str, mutant_id: &str) -> LogLine {
    LogLine::Event(MutationEvent::MutantStarted {
        run_id: run_id.to_string(),
        timestamp_ms: 10,
        mutant_id: mutant_id.to_string(),
    })
}

fn finished(run_id: &str, mutant_id: &str, outcome: MutationOutcome) -> LogLine {
    LogLine::Event(MutationEvent::MutantFinished {
        run_id: run_id.to_string(),
        timestamp_ms: 20,
        mutant_id: mutant_id.to_string(),
        outcome,
        exit_code: None,
        stdout_artifact_path: None,
        stderr_artifact_path: None,
        started_at_ms: None,
        finished_at_ms: None,
        duration_ms: None,
        tests_run: Vec::new(),
        tests_failed: Vec::new(),
        stdout_preview: None,
        stderr_preview: None,
    })
}

fn discovered(run_id: &str, mutant: MutantSpec) -> LogLine {
    LogLine::Event(MutationEvent::MutantDiscovered {
        run_id: run_id.to_string(),
        timestamp_ms: 5,
        mutant,
    })
}

fn run_started(run_id: &str, count: usize) -> LogLine {
    LogLine::Event(MutationEvent::RunStarted {
        run_id: run_id.to_string(),
        timestamp_ms: 1,
        discovered: count,
        config: None,
        metadata: None,
    })
}

#[test]
fn replay_is_deterministic() {
    let build = || {
        vec![
            run_started("run-1", 1),
            discovered("run-1", test_mutant("m1", "mutant 1", "sel1")),
        ]
    };
    let a = replay_log(&build());
    let b = replay_log(&build());
    assert_eq!(a.run_id, b.run_id);
    assert_eq!(a.mutants.len(), b.mutants.len());
    assert_eq!(a.malformed_lines, b.malformed_lines);
    assert_eq!(a.mutants[0].status, b.mutants[0].status);
}

#[test]
fn malformed_tail_is_ignored() {
    let mut lines = vec![run_started("run-1", 0)];
    let clean = replay_log(&lines);
    lines.push(LogLine::Text("{bad json".to_string()));
    let snapshot = replay_log(&lines);
    assert_eq!(snapshot.malformed_lines, clean.malformed_lines + 1);
    assert_eq!(snapshot.malformed_lines, 1);
    assert_eq!(snapshot.run_id, "run-1");
    assert_eq!(snapshot.completed, clean.completed);
    assert_eq!(snapshot.mutants.len(), clean.mutants.len());
}

#[test]
fn blank_lines_are_skipped_not_counted() {
    let lines = vec![run_started("run-1", 0), LogLine::Text("   ".to_string())];
    let snapshot = replay_log(&lines);
    assert_eq!(snapshot.malformed_lines, 0);
}

#[test]
fn started_without_finish_replays_as_running_and_pending() {
    let lines = vec![
        run_started("run-2", 2),
        discovered("run-2", test_mutant("m1", "mutant-1", "sel1")),
        discovered("run-2", test_mutant("m2", "mutant-2", "sel2")),
        started("run-2", "m1"),
        finished("run-2", "m1", MutationOutcome::Killed),
        started("run-2", "m2"),
    ];
    let snapshot = replay_log(&lines);
    let m2 = snapshot.get_mutant("m2").expect("m2 state should exist");
    assert_eq!(m2.status, MutationStatus::Running);
    let pending_ids: Vec<String> = snapshot
        .pending_mutants()
        .into_iter()
        .map(|m| m.id)
        .collect();
    assert_eq!(pending_ids, vec!["m2".to_string()]);
}

#[test]
fn pending_mutants_includes_running_and_pending_only() {
    let lines = vec![
        run_started("run-2", 3),
        discovered("run-2", test_mutant("m_pending", "pending", "sel_pending")),
        discovered("run-2", test_mutant("m_running", "running", "sel_running")),
        discovered("run-2", test_mutant("m_done", "done", "sel_done")),
        started("run-2", "m_running"),
        finished("run-2", "m_done", MutationOutcome::Killed),
    ];
    let snapshot = replay_log(&lines);
    let pending_ids: Vec<String> = snapshot
        .pending_mutants()
        .into_iter()
        .map(|m| m.id)
        .collect();
    assert!(pending_ids.contains(&"m_pending".to_string()));
    assert!(pending_ids.contains(&"m_running".to_string()));
    assert!(!pending_ids.contains(&"m_done".to_string()));
}

#[test]
fn error_outcome_persists_error_message() {
    let lines = vec![
        run_started("run-3", 1),
        discovered("run-3", test_mutant("m_err", "error mutant", "sel_err")),
        finished(
            "run-3",
            "m_err",
            MutationOutcome::Error {
                message: "boom".to_string(),
            },
        ),
    ];
    let snapshot = replay_log(&lines);
    let state = snapshot.get_mutant("m_err").expect("error mutant should exist");
    assert_eq!(state.status, MutationStatus::Error);
    assert_eq!(state.last_error.as_deref(), Some("boom"));
}

#[test]
fn interrupt_leaves_run_incomplete_with_pending_work() {
    let lines = vec![
        run_started("run-4", 2),
        discovered("run-4", test_mutant("m1", "mutant-1", "sel1")),
        discovered("run-4", test_mutant("m2", "mutant-2", "sel2")),
        started("run-4", "m1"),
        finished("run-4", "m1", MutationOutcome::Killed),
        LogLine::Event(MutationEvent::RunInterrupted {
            run_id: "run-4".to_string(),
            timestamp_ms: 30,
            reason: "received interrupt signal".to_string(),
        }),
    ];
    let snapshot = replay_log(&lines);
    assert!(snapshot.interrupted);
    assert!(!snapshot.completed);
    assert!(!snapshot.pending_mutants().is_empty());
    // The mutant that was never started stays pending.
    assert_eq!(
        snapshot.get_mutant("m2").expect("m2 exists").status,
        MutationStatus::Pending
    );
}

#[test]
fn rediscovery_resets_a_mutant_to_pending() {
    let lines = vec![
        run_started("run-5", 1),
        discovered("run-5", test_mutant("m1", "mutant-1", "sel1")),
        started("run-5", "m1"),
        finished("run-5", "m1", MutationOutcome::Survived),
        discovered("run-5", test_mutant("m1", "mutant-1", "sel1")),
    ];
    let snapshot = replay_log(&lines);
    assert_eq!(
        snapshot.get_mutant("m1").expect("m1 exists").status,
        MutationStatus::Pending
    );
}

#[test]
fn finish_for_unknown_mutant_is_ignored() {
    let lines = vec![
        run_started("run-6", 0),
        finished("run-6", "ghost", MutationOutcome::Killed),
    ];
    let snapshot = replay_log(&lines);
    assert!(snapshot.mutants.is_empty());
    assert_eq!(snapshot.malformed_lines, 0);
}

#[test]
fn mutant_table_keeps_ascending_id_order() {
    let lines = vec![
        run_started("run-7", 3),
        discovered("run-7", test_mutant("mc", "c", "sc")),
        discovered("run-7", test_mutant("ma", "a", "sa")),
        discovered("run-7", test_mutant("mb", "b", "sb")),
    ];
    let snapshot = replay_log(&lines);
    let ids: Vec<String> = snapshot.mutants.iter().map(|m| m.spec.id.clone()).collect();
    assert_eq!(
        ids,
        vec!["ma".to_string(), "mb".to_string(), "mc".to_string()]
    );
}

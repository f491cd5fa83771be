use kitchensink_testing::mutation::engine::CargoMutantsEngine;
use kitchensink_testing::mutation::events::MutationEvent;
use kitchensink_testing::mutation::events::MutationOutcome;
use kitchensink_testing::mutation::report::MutantReport;
use kitchensink_testing::mutation::report::RunSummary;
use kitchensink_testing::mutation::report::status_to_string;
use kitchensink_testing::mutation::runner::ResumePlan;
use kitchensink_testing::mutation::runner::plan_resume;
use kitchensink_testing::mutation::state::LogLine;
use kitchensink_testing::mutation::state::MutationStatus;
use kitchensink_testing::mutation::state::replay_log;

fn run_started(run_id: &str, count: usize) -> LogLine {
    LogLine::Event(MutationEvent::RunStarted {
        run_id: run_id.to_string(),
        timestamp_ms: 1,
        discovered: count,
        config: None,
        metadata: None,
    })
}

fn started(run_id: &str, mutant_id: &str, ts: i64) -> LogLine {
    LogLine::Event(MutationEvent::MutantStarted {
        run_id: run_id.to_string(),
        timestamp_ms: ts,
        mutant_id: mutant_id.to_string(),
    })
}

fn finished(run_id: &str, mutant_id: &str, outcome: MutationOutcome, ts: i64) -> LogLine {
    LogLine::Event(MutationEvent::MutantFinished {
        run_id: run_id.to_string(),
        timestamp_ms: ts,
        mutant_id: mutant_id.to_string(),
        outcome,
        exit_code: Some(0),
        stdout_artifact_path: None,
        stderr_artifact_path: None,
        started_at_ms: Some(ts - 7),
        finished_at_ms: Some(ts),
        duration_ms: None,
        tests_run: Vec::new(),
        tests_failed: Vec::new(),
        stdout_preview: None,
        stderr_preview: None,
    })
}

fn completed(run_id: &str) -> LogLine {
    LogLine::Event(MutationEvent::RunCompleted {
        run_id: run_id.to_string(),
        timestamp_ms: 99,
    })
}

#[test]
fn summary_counts_all_statuses() {
    let run = "run-counts";
    let mut lines = vec![run_started(run, 8)];
    let listing = "m0\nm1\nm2\nm3\nm4\nm5\nm6\nm7\n";
    let mutants = CargoMutantsEngine::parse_mutant_list(listing).expect("listing parses");
    let outcomes = [
        Some(MutationOutcome::Killed),
        Some(MutationOutcome::Survived),
        Some(MutationOutcome::Timeout),
        Some(MutationOutcome::Unviable),
        Some(MutationOutcome::Skipped),
        Some(MutationOutcome::Error {
            message: "boom".to_string(),
        }),
        None,
        None,
    ];
    for mutant in &mutants {
        lines.push(LogLine::Event(MutationEvent::MutantDiscovered {
            run_id: run.to_string(),
            timestamp_ms: 2,
            mutant: mutant.clone(),
        }));
    }
    for (mutant, outcome) in mutants.iter().zip(outcomes.into_iter()) {
        if let Some(outcome) = outcome {
            lines.push(finished(run, &mutant.id, outcome, 50));
        }
    }
    // One of the two unfinished mutants is mid-flight.
    lines.push(started(run, &mutants[6].id, 60));

    let snapshot = replay_log(&lines);
    let summary = RunSummary::from_snapshot(&snapshot);
    assert_eq!(summary.total, 8);
    assert_eq!(summary.killed, 1);
    assert_eq!(summary.survived, 1);
    assert_eq!(summary.timeout, 1);
    assert_eq!(summary.unviable, 1);
    assert_eq!(summary.skipped, 1);
    assert_eq!(summary.error, 1);
    assert_eq!(summary.incomplete, 2);
    // killed / (total - skipped - unviable) = 1/6, to the nearest
    // hundredth of a percent.
    assert_eq!(summary.mutation_score_hundredths, 1667);
    assert_eq!(summary.mutation_score_text(), "16.67");
}

#[test]
fn summary_handles_no_testable_mutants() {
    let run = "run-none";
    let listing = "m0\nm1\n";
    let mutants = CargoMutantsEngine::parse_mutant_list(listing).expect("listing parses");
    let mut lines = vec![run_started(run, 2)];
    for mutant in &mutants {
        lines.push(LogLine::Event(MutationEvent::MutantDiscovered {
            run_id: run.to_string(),
            timestamp_ms: 2,
            mutant: mutant.clone(),
        }));
    }
    lines.push(finished(run, &mutants[0].id, MutationOutcome::Skipped, 10));
    lines.push(finished(run, &mutants[1].id, MutationOutcome::Unviable, 11));
    let summary = RunSummary::from_snapshot(&replay_log(&lines));
    assert_eq!(summary.mutation_score_hundredths, 10000);
    assert_eq!(summary.mutation_score_text(), "100.00");
}

#[test]
fn mutant_report_carries_state_fields() {
    let run = "run-report";
    let listing = "src/lib.rs:42:5: replace + with *\n";
    let mutants = CargoMutantsEngine::parse_mutant_list(listing).expect("listing parses");
    let lines = vec![
        run_started(run, 1),
        LogLine::Event(MutationEvent::MutantDiscovered {
            run_id: run.to_string(),
            timestamp_ms: 2,
            mutant: mutants[0].clone(),
        }),
        finished(run, &mutants[0].id, MutationOutcome::Survived, 50),
    ];
    let snapshot = replay_log(&lines);
    let report = MutantReport::from_state(&snapshot.mutants[0]);
    assert_eq!(report.id, mutants[0].id);
    assert_eq!(report.label, "src/lib.rs:42:5: replace + with *");
    assert_eq!(report.source_file, "src/lib.rs");
    assert_eq!(report.source_line, 42);
    assert_eq!(report.mutation_type, "arithmetic");
    assert_eq!(report.status, "survived");
    // No explicit duration was logged, so it is derived from the
    // started/finished timestamps in the finish event.
    assert_eq!(report.duration_ms, Some(7));
}

#[test]
fn status_names_are_snake_case() {
    assert_eq!(status_to_string(&MutationStatus::Pending), "pending");
    assert_eq!(status_to_string(&MutationStatus::Running), "running");
    assert_eq!(status_to_string(&MutationStatus::Killed), "killed");
    assert_eq!(status_to_string(&MutationStatus::Survived), "survived");
    assert_eq!(status_to_string(&MutationStatus::Error), "error");
}

#[test]
fn end_to_end_survivor_retest_raises_score_to_full() {
    let run = "run-e2e";
    let mutants = CargoMutantsEngine::parse_mutant_list("add\nsub\n").expect("listing parses");
    assert_eq!(mutants.len(), 2);
    let add = mutants[0].clone();
    let sub = mutants[1].clone();

    // First run: add is killed, sub survives, the run completes.
    let mut lines = vec![run_started(run, 2)];
    for mutant in &mutants {
        lines.push(LogLine::Event(MutationEvent::MutantDiscovered {
            run_id: run.to_string(),
            timestamp_ms: 2,
            mutant: mutant.clone(),
        }));
    }
    lines.push(started(run, &add.id, 10));
    lines.push(finished(run, &add.id, MutationOutcome::Killed, 11));
    lines.push(started(run, &sub.id, 12));
    lines.push(finished(run, &sub.id, MutationOutcome::Survived, 13));
    lines.push(completed(run));

    let snapshot = replay_log(&lines);
    assert!(snapshot.completed);
    let summary = RunSummary::from_snapshot(&snapshot);
    assert_eq!(summary.killed, 1);
    assert_eq!(summary.survived, 1);
    assert_eq!(summary.mutation_score_hundredths, 5000);
    assert_eq!(summary.mutation_score_text(), "50.00");

    // A second invocation against the same config re-tests only the
    // survivor.
    let retest_ids: Vec<String> = match plan_resume(&snapshot) {
        ResumePlan::Execute(schedule) => schedule.into_iter().map(|m| m.id).collect(),
        ResumePlan::AlreadyComplete => panic!("expected a survivor re-test"),
    };
    assert_eq!(retest_ids, vec![sub.id.clone()]);

    // The survivor is now killed; the final snapshot shows 2/2 killed.
    lines.push(LogLine::Event(MutationEvent::RunResumed {
        run_id: run.to_string(),
        timestamp_ms: 20,
        remaining: 1,
    }));
    lines.push(started(run, &sub.id, 21));
    lines.push(finished(run, &sub.id, MutationOutcome::Killed, 22));
    lines.push(completed(run));

    let final_snapshot = replay_log(&lines);
    let final_summary = RunSummary::from_snapshot(&final_snapshot);
    assert_eq!(final_summary.killed, 2);
    assert_eq!(final_summary.survived, 0);
    assert_eq!(final_summary.mutation_score_hundredths, 10000);
    assert_eq!(final_summary.mutation_score_text(), "100.00");
    assert!(final_snapshot.completed);
    assert!(final_snapshot.pending_mutants().is_empty());
}

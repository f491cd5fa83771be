//! Event replay and run-state projection.
//!
//! The snapshot of a run is a pure fold over its decoded log lines.  The
//! fold is written twice: once as a spec-level function on views
//! ([`replay_spec`]), once as executable code ([`replay_log`]) proved to
//! compute exactly the spec-level fold.  Replaying the same lines twice
//! therefore yields the same snapshot.

use vstd::prelude::*;
use vstd::string::StringExecFns;
use crate::mutation::events::MutantSpec;
use crate::mutation::events::MutantSpecView;
use crate::mutation::events::MutationEvent;
use crate::mutation::events::MutationEventView;
use crate::mutation::events::MutationOutcome;
use crate::mutation::events::MutationOutcomeView;
use crate::mutation::events::RunConfigSnapshot;
use crate::mutation::events::RunConfigSnapshotView;
use crate::mutation::events::RunMetadata;
use crate::mutation::events::RunMetadataView;
use crate::mutation::events::TestFailure;
use crate::mutation::events::TestFailureView;
use crate::mutation::events::clone_failures;
use crate::mutation::events::clone_opt_string;
use crate::mutation::events::clone_string_vec;
use crate::mutation::events::opt_string_view;
use crate::mutation::events::strings_view;
use crate::mutation::events::failures_view;
use crate::mutation::text::trim_spec;
use crate::mutation::text::is_blank;

verus! {

/// Status derived from the event stream for each mutant.
#[derive(Debug, Clone, Copy, PartialEq, Eq, Structural)]
pub enum MutationStatus {
    /// Discovered and not started.
    Pending,
    /// Started but no terminal outcome yet.
    Running,
    /// Terminal: killed.
    Killed,
    /// Terminal: survived.
    Survived,
    /// Terminal: timeout.
    Timeout,
    /// Terminal: unviable.
    Unviable,
    /// Terminal: skipped.
    Skipped,
    /// Terminal: error.
    Error,
}

/// A status from which a mutant will not be scheduled again.
pub open spec fn is_terminal_status(s: MutationStatus) -> bool {
    s is Killed || s is Survived || s is Timeout || s is Unviable || s is Skipped || s is Error
}

impl MutationStatus {
    /// True if the status is terminal.
    pub fn is_terminal(&self) -> (r: bool)
        ensures
            r == is_terminal_status(*self),
    {
        match self {
            Self::Killed | Self::Survived | Self::Timeout | Self::Unviable | Self::Skipped
            | Self::Error => true,
            Self::Pending | Self::Running => false,
        }
    }
}

/// The status a terminal outcome maps to.
pub open spec fn status_of_outcome(o: MutationOutcomeView) -> MutationStatus {
    match o {
        MutationOutcomeView::Killed => MutationStatus::Killed,
        MutationOutcomeView::Survived => MutationStatus::Survived,
        MutationOutcomeView::Timeout => MutationStatus::Timeout,
        MutationOutcomeView::Unviable => MutationStatus::Unviable,
        MutationOutcomeView::Skipped => MutationStatus::Skipped,
        MutationOutcomeView::Error(_) => MutationStatus::Error,
    }
}

/// Ghost mirror of [`MutantState`].
#[verifier::ext_equal]
pub ghost struct MutantStateView {
    /// Mutant descriptor.
    pub spec: MutantSpecView,
    /// Derived status.
    pub status: MutationStatus,
    /// Mutant execution start timestamp.
    pub started_at_ms: Option<i64>,
    /// Mutant execution finish timestamp.
    pub finished_at_ms: Option<i64>,
    /// Duration in milliseconds.
    pub duration_ms: Option<u64>,
    /// Mutant process exit code.
    pub exit_code: Option<i32>,
    /// Relative path to stdout artifact.
    pub stdout_artifact_path: Option<Seq<char>>,
    /// Relative path to stderr artifact.
    pub stderr_artifact_path: Option<Seq<char>>,
    /// Optional last error string.
    pub last_error: Option<Seq<char>>,
    /// Test names that ran against this mutant.
    pub tests_run: Seq<Seq<char>>,
    /// Tests that failed.
    pub tests_failed: Seq<TestFailureView>,
    /// Preview of stdout output.
    pub stdout_preview: Option<Seq<char>>,
    /// Preview of stderr output.
    pub stderr_preview: Option<Seq<char>>,
}

/// Per-mutant state in a replay snapshot.
#[derive(Debug, PartialEq)]
pub struct MutantState {
    /// Mutant descriptor.
    pub spec: MutantSpec,
    /// Derived status.
    pub status: MutationStatus,
    /// Mutant execution start timestamp.
    pub started_at_ms: Option<i64>,
    /// Mutant execution finish timestamp.
    pub finished_at_ms: Option<i64>,
    /// Duration in milliseconds.
    pub duration_ms: Option<u64>,
    /// Mutant process exit code.
    pub exit_code: Option<i32>,
    /// Relative path to stdout artifact.
    pub stdout_artifact_path: Option<String>,
    /// Relative path to stderr artifact.
    pub stderr_artifact_path: Option<String>,
    /// Optional last error string.
    pub last_error: Option<String>,
    /// Test names that ran against this mutant.
    pub tests_run: Vec<String>,
    /// Tests that failed (for killed mutants).
    pub tests_failed: Vec<TestFailure>,
    /// Preview of stdout output.
    pub stdout_preview: Option<String>,
    /// Preview of stderr output.
    pub stderr_preview: Option<String>,
}

impl View for MutantState {
    type V = MutantStateView;

    open spec fn view(&self) -> MutantStateView {
        MutantStateView {
            spec: self.spec@,
            status: self.status,
            started_at_ms: self.started_at_ms,
            finished_at_ms: self.finished_at_ms,
            duration_ms: self.duration_ms,
            exit_code: self.exit_code,
            stdout_artifact_path: opt_string_view(self.stdout_artifact_path),
            stderr_artifact_path: opt_string_view(self.stderr_artifact_path),
            last_error: opt_string_view(self.last_error),
            tests_run: strings_view(self.tests_run@),
            tests_failed: failures_view(self.tests_failed@),
            stdout_preview: opt_string_view(self.stdout_preview),
            stderr_preview: opt_string_view(self.stderr_preview),
        }
    }
}

impl Clone for MutantState {
    /// Clones every field; the copy has the same view.
    fn clone(&self) -> (r: Self)
        ensures
            r@ == self@,
    {
        MutantState {
            spec: self.spec.clone(),
            status: self.status,
            started_at_ms: self.started_at_ms,
            finished_at_ms: self.finished_at_ms,
            duration_ms: self.duration_ms,
            exit_code: self.exit_code,
            stdout_artifact_path: clone_opt_string(&self.stdout_artifact_path),
            stderr_artifact_path: clone_opt_string(&self.stderr_artifact_path),
            last_error: clone_opt_string(&self.last_error),
            tests_run: clone_string_vec(&self.tests_run),
            tests_failed: clone_failures(&self.tests_failed),
            stdout_preview: clone_opt_string(&self.stdout_preview),
            stderr_preview: clone_opt_string(&self.stderr_preview),
        }
    }
}

/// Ghost mirror of [`RunInfo`].
#[verifier::ext_equal]
pub ghost struct RunInfoView {
    /// Configuration snapshot.
    pub config: Option<RunConfigSnapshotView>,
    /// Environment metadata.
    pub metadata: Option<RunMetadataView>,
}

/// Run-level metadata from the `RunStarted` event.
#[derive(Debug)]
pub struct RunInfo {
    /// Configuration snapshot.
    pub config: Option<RunConfigSnapshot>,
    /// Environment metadata.
    pub metadata: Option<RunMetadata>,
}

impl View for RunInfo {
    type V = RunInfoView;

    open spec fn view(&self) -> RunInfoView {
        RunInfoView {
            config: match self.config {
                Some(c) => Some(c@),
                None => None,
            },
            metadata: match self.metadata {
                Some(m) => Some(m@),
                None => None,
            },
        }
    }
}

impl Clone for RunInfo {
    /// Clones every field; the copy equals the original.
    fn clone(&self) -> (r: Self)
        ensures
            r == *self,
    {
        RunInfo {
            config: match &self.config {
                Some(c) => Some(c.clone()),
                None => None,
            },
            metadata: match &self.metadata {
                Some(m) => Some(m.clone()),
                None => None,
            },
        }
    }
}

#[verifier::external_type_specification]
#[verifier::external_body]
/// Declares the standard I/O error type so it can be carried in this
/// crate's error enums.
pub struct ExIoError(std::io::Error);

/// Relies on the `Display` implementation of `std::io::Error` for a
/// human-readable description of the error.
#[verifier::external_body]
pub fn io_error_text(e: &std::io::Error) -> String {
    format!("{e}")
}

/// State replay errors.
#[derive(Debug)]
pub enum MutationStateError {
    /// IO failure.
    Io(std::io::Error),
}

impl MutationStateError {
    /// A human-readable description of the error.
    pub fn message(&self) -> (r: String) {
        match self {
            MutationStateError::Io(e) => {
                let mut out = String::from_str("io error: ");
                out.append(io_error_text(e).as_str());
                out
            },
        }
    }
}

/// One decoded line of a run's event log: either an event, or raw text
/// that did not decode as one.
#[derive(Debug)]
pub enum LogLine {
    /// A line holding one well-formed event.
    Event(MutationEvent),
    /// A line that is not a well-formed event record.
    Text(String),
}

/// Ghost mirror of [`LogLine`].
#[verifier::ext_equal]
pub ghost enum LogLineView {
    /// A line holding one well-formed event.
    Event(MutationEventView),
    /// A line that is not a well-formed event record.
    Text(Seq<char>),
}

impl View for LogLine {
    type V = LogLineView;

    open spec fn view(&self) -> LogLineView {
        match self {
            LogLine::Event(e) => LogLineView::Event(e@),
            LogLine::Text(t) => LogLineView::Text(t@),
        }
    }
}

/// The views of a sequence of log lines.
pub open spec fn lines_view(v: Seq<LogLine>) -> Seq<LogLineView> {
    v.map_values(|l: LogLine| l@)
}

/// Ghost mirror of [`RunSnapshot`].  The mutant table is ordered by
/// strictly ascending mutant id.
#[verifier::ext_equal]
pub ghost struct RunSnapshotView {
    /// Run id.
    pub run_id: Seq<char>,
    /// Mutant states, ordered by ascending mutant id.
    pub mutants: Seq<MutantStateView>,
    /// Number of malformed event lines ignored.
    pub malformed_lines: usize,
    /// Whether any interruption event has occurred.
    pub interrupted: bool,
    /// Whether a completion event has occurred.
    pub completed: bool,
    /// Run-level info.
    pub info: RunInfoView,
}

/// Materialized run state derived from the event log.
#[derive(Debug)]
pub struct RunSnapshot {
    /// Run id.
    pub run_id: String,
    /// Mutant states, kept in ascending order of mutant id.
    pub mutants: Vec<MutantState>,
    /// Number of malformed event lines ignored.
    pub malformed_lines: usize,
    /// Whether any interruption event has occurred.
    pub interrupted: bool,
    /// Whether a completion event has occurred.
    pub completed: bool,
    /// Run-level info (config, metadata).
    pub info: RunInfo,
}

impl View for RunSnapshot {
    type V = RunSnapshotView;

    open spec fn view(&self) -> RunSnapshotView {
        RunSnapshotView {
            run_id: self.run_id@,
            mutants: self.mutants@.map_values(|m: MutantState| m@),
            malformed_lines: self.malformed_lines,
            interrupted: self.interrupted,
            completed: self.completed,
            info: self.info@,
        }
    }
}

/// Lexicographic order on character sequences by Unicode scalar value;
/// for the ids stored here this is the order an ordered string map would
/// keep its keys in.
pub open spec fn lex_lt(a: Seq<char>, b: Seq<char>) -> bool
    decreases a.len(),
{
    if b.len() == 0 {
        false
    } else if a.len() == 0 {
        true
    } else if a[0] != b[0] {
        (a[0] as int) < (b[0] as int)
    } else {
        lex_lt(a.drop_first(), b.drop_first())
    }
}

/// The mutant table is strictly sorted by id (so ids are unique).
pub open spec fn table_sorted(m: Seq<MutantStateView>) -> bool {
    forall|i: int, j: int| 0 <= i < j < m.len() ==> lex_lt(#[trigger] m[i].spec.id, #[trigger] m[j].spec.id)
}

/// The position a mutant id occupies, or would be inserted at: the first
/// index whose id is not below `id`.
pub open spec fn insert_pos(m: Seq<MutantStateView>, id: Seq<char>) -> int
    decreases m.len(),
{
    if m.len() == 0 {
        0
    } else if !lex_lt(m[0].spec.id, id) {
        0
    } else {
        1 + insert_pos(m.drop_first(), id)
    }
}

/// The fresh state of a just-discovered mutant.
pub open spec fn fresh_state_view(mutant: MutantSpecView) -> MutantStateView {
    MutantStateView {
        spec: mutant,
        status: MutationStatus::Pending,
        started_at_ms: None,
        finished_at_ms: None,
        duration_ms: None,
        exit_code: None,
        stdout_artifact_path: None,
        stderr_artifact_path: None,
        last_error: None,
        tests_run: Seq::empty(),
        tests_failed: Seq::empty(),
        stdout_preview: None,
        stderr_preview: None,
    }
}

/// Inserting into the table: an existing entry with the same id is
/// replaced, otherwise the new entry enters at its ordered position.
pub open spec fn table_insert(m: Seq<MutantStateView>, st: MutantStateView) -> Seq<
    MutantStateView,
> {
    let p = insert_pos(m, st.spec.id);
    if p < m.len() && m[p].spec.id == st.spec.id {
        m.update(p, st)
    } else {
        m.insert(p, st)
    }
}

/// The first index holding `id`, or the table length if there is none.
pub open spec fn table_index_of(m: Seq<MutantStateView>, id: Seq<char>) -> int
    decreases m.len(),
{
    if m.len() == 0 {
        0
    } else if m[0].spec.id == id {
        0
    } else {
        1 + table_index_of(m.drop_first(), id)
    }
}

/// The state recorded for `id`, if any.
pub open spec fn table_find(m: Seq<MutantStateView>, id: Seq<char>) -> Option<MutantStateView> {
    let i = table_index_of(m, id);
    if i < m.len() {
        Some(m[i])
    } else {
        None
    }
}

/// How a `MutantStarted` event changes a mutant's state.
pub open spec fn apply_started_view(st: MutantStateView, timestamp_ms: i64) -> MutantStateView {
    MutantStateView { status: MutationStatus::Running, started_at_ms: Some(timestamp_ms), ..st }
}

/// The duration recorded by a `MutantFinished` event: the explicit
/// duration if present, else the difference of the new timestamps where
/// that is representable.
pub open spec fn finished_duration_view(
    duration_ms: Option<u64>,
    started: Option<i64>,
    finished: Option<i64>,
) -> Option<u64> {
    match duration_ms {
        Some(d) => Some(d),
        None => match (started, finished) {
            (Some(s), Some(f)) => if 0 <= f - s <= i64::MAX {
                Some((f - s) as u64)
            } else {
                None
            },
            _ => None,
        },
    }
}

/// How a `MutantFinished` event changes a mutant's state.
pub open spec fn apply_finished_view(
    st: MutantStateView,
    timestamp_ms: i64,
    outcome: MutationOutcomeView,
    exit_code: Option<i32>,
    stdout_artifact_path: Option<Seq<char>>,
    stderr_artifact_path: Option<Seq<char>>,
    started_at_ms: Option<i64>,
    duration_ms: Option<u64>,
    tests_run: Seq<Seq<char>>,
    tests_failed: Seq<TestFailureView>,
    stdout_preview: Option<Seq<char>>,
    stderr_preview: Option<Seq<char>>,
) -> MutantStateView {
    let new_started = match started_at_ms {
        Some(s) => Some(s),
        None => st.started_at_ms,
    };
    let new_finished = Some(timestamp_ms);
    MutantStateView {
        status: status_of_outcome(outcome),
        started_at_ms: new_started,
        finished_at_ms: new_finished,
        duration_ms: finished_duration_view(duration_ms, new_started, new_finished),
        exit_code: exit_code,
        stdout_artifact_path: stdout_artifact_path,
        stderr_artifact_path: stderr_artifact_path,
        last_error: match outcome {
            MutationOutcomeView::Error(message) => Some(message),
            _ => st.last_error,
        },
        tests_run: tests_run,
        tests_failed: tests_failed,
        stdout_preview: stdout_preview,
        stderr_preview: stderr_preview,
        ..st
    }
}

/// How one event changes the snapshot.
pub open spec fn apply_event_spec(s: RunSnapshotView, e: MutationEventView) -> RunSnapshotView {
    match e {
        MutationEventView::RunStarted { run_id, config, metadata, .. } => {
            RunSnapshotView {
                run_id: if s.run_id.len() == 0 {
                    run_id
                } else {
                    s.run_id
                },
                info: RunInfoView { config, metadata },
                ..s
            }
        },
        MutationEventView::RunResumed { run_id, .. } => {
            RunSnapshotView {
                run_id: if s.run_id.len() == 0 {
                    run_id
                } else {
                    s.run_id
                },
                ..s
            }
        },
        MutationEventView::MutantDiscovered { mutant, .. } => {
            RunSnapshotView { mutants: table_insert(s.mutants, fresh_state_view(mutant)), ..s }
        },
        MutationEventView::MutantStarted { mutant_id, timestamp_ms, .. } => {
            let i = table_index_of(s.mutants, mutant_id);
            if i < s.mutants.len() {
                RunSnapshotView {
                    mutants: s.mutants.update(i, apply_started_view(s.mutants[i], timestamp_ms)),
                    ..s
                }
            } else {
                s
            }
        },
        MutationEventView::MutantFinished {
            mutant_id,
            timestamp_ms,
            outcome,
            exit_code,
            stdout_artifact_path,
            stderr_artifact_path,
            started_at_ms,
            duration_ms,
            tests_run,
            tests_failed,
            stdout_preview,
            stderr_preview,
            ..
        } => {
            let i = table_index_of(s.mutants, mutant_id);
            if i < s.mutants.len() {
                RunSnapshotView {
                    mutants: s.mutants.update(
                        i,
                        apply_finished_view(
                            s.mutants[i],
                            timestamp_ms,
                            outcome,
                            exit_code,
                            stdout_artifact_path,
                            stderr_artifact_path,
                            started_at_ms,
                            duration_ms,
                            tests_run,
                            tests_failed,
                            stdout_preview,
                            stderr_preview,
                        ),
                    ),
                    ..s
                }
            } else {
                s
            }
        },
        MutationEventView::RunInterrupted { .. } => {
            RunSnapshotView { interrupted: true, ..s }
        },
        MutationEventView::RunCompleted { .. } => {
            RunSnapshotView { completed: true, ..s }
        },
    }
}

/// How one decoded log line changes the snapshot: an event is applied, a
/// blank line is skipped, any other undecodable line is counted as
/// malformed.
pub open spec fn apply_line_spec(s: RunSnapshotView, line: LogLineView) -> RunSnapshotView {
    match line {
        LogLineView::Event(e) => apply_event_spec(s, e),
        LogLineView::Text(t) => {
            if trim_spec(t).len() == 0 {
                s
            } else {
                RunSnapshotView {
                    malformed_lines: if s.malformed_lines < usize::MAX {
                        (s.malformed_lines + 1) as usize
                    } else {
                        s.malformed_lines
                    },
                    ..s
                }
            }
        },
    }
}

/// The snapshot before any line was read.
pub open spec fn empty_snapshot_view() -> RunSnapshotView {
    RunSnapshotView {
        run_id: Seq::empty(),
        mutants: Seq::empty(),
        malformed_lines: 0,
        interrupted: false,
        completed: false,
        info: RunInfoView { config: None, metadata: None },
    }
}

/// The snapshot that replaying the given decoded lines produces: a pure
/// left fold of [`apply_line_spec`] from the empty snapshot.
pub open spec fn replay_spec(lines: Seq<LogLineView>) -> RunSnapshotView
    decreases lines.len(),
{
    if lines.len() == 0 {
        empty_snapshot_view()
    } else {
        apply_line_spec(replay_spec(lines.drop_last()), lines.last())
    }
}

/// The views of a mutant table.
pub open spec fn table_view(v: Seq<MutantState>) -> Seq<MutantStateView> {
    v.map_values(|m: MutantState| m@)
}

/// The descriptors of the non-terminal (pending or running) mutants, in
/// table order.
pub open spec fn pending_of(m: Seq<MutantStateView>) -> Seq<MutantSpecView>
    decreases m.len(),
{
    if m.len() == 0 {
        Seq::empty()
    } else {
        pending_of(m.drop_last()) + if !is_terminal_status(m.last().status) {
            seq![m.last().spec]
        } else {
            Seq::empty()
        }
    }
}

/// The descriptors of the surviving mutants, in table order.
pub open spec fn survivors_of(m: Seq<MutantStateView>) -> Seq<MutantSpecView>
    decreases m.len(),
{
    if m.len() == 0 {
        Seq::empty()
    } else {
        survivors_of(m.drop_last()) + if m.last().status is Survived {
            seq![m.last().spec]
        } else {
            Seq::empty()
        }
    }
}

/// The views of a vector of mutant descriptors.
pub open spec fn specs_view(v: Seq<MutantSpec>) -> Seq<MutantSpecView> {
    v.map_values(|s: MutantSpec| s@)
}

impl RunSnapshot {
    /// Collects the remaining mutants to execute or re-execute: every
    /// mutant whose derived status is not terminal, in ascending id order.
    pub fn pending_mutants(&self) -> (r: Vec<MutantSpec>)
        ensures
            specs_view(r@) == pending_of(self@.mutants),
    {
        let ghost mv = table_view(self.mutants@);
        let n = self.mutants.len();
        let mut r: Vec<MutantSpec> = Vec::new();
        proof {
            assert(mv.take(0) =~= Seq::<MutantStateView>::empty());
            assert(specs_view(r@) =~= pending_of(mv.take(0)));
        }
        let mut i: usize = 0;
        while i < n
            invariant
                n == self.mutants@.len(),
                mv == table_view(self.mutants@),
                i <= n,
                specs_view(r@) == pending_of(mv.take(i as int)),
            decreases n - i,
        {
            proof {
                assert(mv.take(i + 1).drop_last() =~= mv.take(i as int));
                assert(mv.take(i + 1).last() == mv[i as int]);
            }
            let terminal = self.mutants[i].status.is_terminal();
            if !terminal {
                r.push(self.mutants[i].spec.clone());
                proof {
                    assert(specs_view(r@) =~= pending_of(mv.take(i + 1)));
                }
            } else {
                proof {
                    assert(specs_view(r@) =~= pending_of(mv.take(i + 1)));
                }
            }
            i += 1;
        }
        proof {
            assert(mv.take(n as int) =~= mv);
        }
        r
    }

    /// Collects the survivors for a targeted re-test: every mutant whose
    /// derived status is `Survived`, in ascending id order.
    pub fn survivor_mutants(&self) -> (r: Vec<MutantSpec>)
        ensures
            specs_view(r@) == survivors_of(self@.mutants),
    {
        let ghost mv = table_view(self.mutants@);
        let n = self.mutants.len();
        let mut r: Vec<MutantSpec> = Vec::new();
        proof {
            assert(mv.take(0) =~= Seq::<MutantStateView>::empty());
            assert(specs_view(r@) =~= survivors_of(mv.take(0)));
        }
        let mut i: usize = 0;
        while i < n
            invariant
                n == self.mutants@.len(),
                mv == table_view(self.mutants@),
                i <= n,
                specs_view(r@) == survivors_of(mv.take(i as int)),
            decreases n - i,
        {
            proof {
                assert(mv.take(i + 1).drop_last() =~= mv.take(i as int));
                assert(mv.take(i + 1).last() == mv[i as int]);
            }
            let survived = match self.mutants[i].status {
                MutationStatus::Survived => true,
                _ => false,
            };
            if survived {
                r.push(self.mutants[i].spec.clone());
                proof {
                    assert(specs_view(r@) =~= survivors_of(mv.take(i + 1)));
                }
            } else {
                proof {
                    assert(specs_view(r@) =~= survivors_of(mv.take(i + 1)));
                }
            }
            i += 1;
        }
        proof {
            assert(mv.take(n as int) =~= mv);
        }
        r
    }

    /// Looks up the recorded state of one mutant by id.
    pub fn get_mutant(&self, id: &str) -> (r: Option<&MutantState>)
        ensures
            match r {
                Some(st) => table_find(self@.mutants, id@) == Some(st@),
                None => table_find(self@.mutants, id@) is None,
            },
    {
        proof {
            lemma_table_index_of(table_view(self.mutants@), id@);
        }
        let n = self.mutants.len();
        let mut i: usize = 0;
        while i < n && !crate::mutation::text::str_eq(self.mutants[i].spec.id.as_str(), id)
            invariant
                n == self.mutants@.len(),
                i <= n,
                forall|k: int| 0 <= k < i ==> (#[trigger] table_view(self.mutants@)[k].spec.id)
                    != id@,
            decreases n - i,
        {
            i += 1;
        }
        proof {
            let mv = table_view(self.mutants@);
            let p = table_index_of(mv, id@);
            if i < p {
                assert(mv[i as int].spec.id != id@);
                assert(i < n);
                assert(false);
            }
            if i > p {
                assert(p < n);
                assert(mv[p].spec.id == id@);
                assert(false);
            }
        }
        if i < n {
            Some(&self.mutants[i])
        } else {
            None
        }
    }
}

proof fn lemma_lex_total(a: Seq<char>, b: Seq<char>)
    ensures
        a == b || lex_lt(a, b) || lex_lt(b, a),
    decreases a.len(),
{
    if b.len() == 0 {
        if a.len() == 0 {
            assert(a =~= b);
        }
    } else if a.len() == 0 {
    } else if a[0] != b[0] {
    } else {
        lemma_lex_total(a.drop_first(), b.drop_first());
        if a.drop_first() == b.drop_first() {
            assert(a.drop_first().len() == a.len() - 1);
            assert(b.drop_first().len() == b.len() - 1);
            assert(a.len() == b.len());
            assert forall|k: int| 0 <= k < a.len() implies a[k] == b[k] by {
                if k > 0 {
                    assert(a.drop_first()[k - 1] == b.drop_first()[k - 1]);
                }
            }
            assert(a =~= b);
        }
    }
}

proof fn lemma_lex_trans(a: Seq<char>, b: Seq<char>, c: Seq<char>)
    requires
        lex_lt(a, b),
        lex_lt(b, c),
    ensures
        lex_lt(a, c),
    decreases a.len(),
{
    assert(c.len() > 0);
    if a.len() == 0 {
    } else {
        assert(b.len() > 0);
        if a[0] == b[0] && b[0] == c[0] {
            lemma_lex_trans(a.drop_first(), b.drop_first(), c.drop_first());
        }
    }
}

proof fn lemma_insert_pos(m: Seq<MutantStateView>, id: Seq<char>)
    ensures
        0 <= insert_pos(m, id) <= m.len(),
        forall|k: int| 0 <= k < insert_pos(m, id) ==> lex_lt(#[trigger] m[k].spec.id, id),
        insert_pos(m, id) < m.len() ==> !lex_lt(m[insert_pos(m, id)].spec.id, id),
    decreases m.len(),
{
    if m.len() == 0 {
    } else if !lex_lt(m[0].spec.id, id) {
    } else {
        let t = m.drop_first();
        lemma_insert_pos(t, id);
        assert(forall|k: int| 0 <= k < t.len() ==> #[trigger] t[k] == m[k + 1]);
        assert forall|k: int| 0 <= k < insert_pos(m, id) implies lex_lt(
            #[trigger] m[k].spec.id,
            id,
        ) by {
            if k > 0 {
                assert(t[k - 1] == m[k]);
            }
        }
    }
}

proof fn lemma_table_index_of(m: Seq<MutantStateView>, id: Seq<char>)
    ensures
        0 <= table_index_of(m, id) <= m.len(),
        forall|k: int| 0 <= k < table_index_of(m, id) ==> (#[trigger] m[k].spec.id) != id,
        table_index_of(m, id) < m.len() ==> m[table_index_of(m, id)].spec.id == id,
    decreases m.len(),
{
    if m.len() == 0 {
    } else if m[0].spec.id == id {
    } else {
        let t = m.drop_first();
        lemma_table_index_of(t, id);
        assert(forall|k: int| 0 <= k < t.len() ==> #[trigger] t[k] == m[k + 1]);
        assert forall|k: int| 0 <= k < table_index_of(m, id) implies (#[trigger] m[k].spec.id)
            != id by {
            if k > 0 {
                assert(t[k - 1] == m[k]);
            }
        }
    }
}

#[verifier::rlimit(50)]
proof fn lemma_table_insert_sorted(m: Seq<MutantStateView>, st: MutantStateView)
    requires
        table_sorted(m),
    ensures
        table_sorted(table_insert(m, st)),
{
    let id = st.spec.id;
    let p = insert_pos(m, id);
    lemma_insert_pos(m, id);
    if p < m.len() && m[p].spec.id == id {
        let n = m.update(p, st);
        assert forall|i: int, j: int| 0 <= i < j < n.len() implies lex_lt(
            #[trigger] n[i].spec.id,
            #[trigger] n[j].spec.id,
        ) by {
            assert(n[i].spec.id == m[i].spec.id);
            assert(n[j].spec.id == m[j].spec.id);
        }
    } else {
        let n = m.insert(p, st);
        m.insert_ensures(p, st);
        if p < m.len() {
            lemma_lex_total(m[p].spec.id, id);
            assert(lex_lt(id, m[p].spec.id));
        }
        assert forall|i: int, j: int| 0 <= i < j < n.len() implies lex_lt(
            #[trigger] n[i].spec.id,
            #[trigger] n[j].spec.id,
        ) by {
            if i < p && j < p {
                assert(n[i] == m[i] && n[j] == m[j]);
            } else if i < p && j == p {
                assert(n[i] == m[i] && n[j] == st);
            } else if i < p && j > p {
                assert(n[i] == m[i] && n[j] == m[j - 1]);
            } else if i == p && j > p {
                assert(n[i] == st && n[j] == m[j - 1]);
                if j - 1 > p {
                    assert(lex_lt(m[p].spec.id, m[j - 1].spec.id));
                    lemma_lex_trans(id, m[p].spec.id, m[j - 1].spec.id);
                }
            } else {
                assert(i > p && j > p);
                assert(n[i] == m[i - 1] && n[j] == m[j - 1]);
            }
        }
    }
}

/// Is `a` lexicographically below `b`?
fn str_lex_lt(a: &str, b: &str) -> (r: bool)
    ensures
        r == lex_lt(a@, b@),
{
    let av = crate::mutation::text::chars_vec(a);
    let bv = crate::mutation::text::chars_vec(b);
    let an = av.len();
    let bn = bv.len();
    proof {
        assert(a@.skip(0) =~= a@);
        assert(b@.skip(0) =~= b@);
    }
    let mut i: usize = 0;
    while i < an && i < bn
        invariant
            an == a@.len(),
            bn == b@.len(),
            av@ == a@,
            bv@ == b@,
            i <= an,
            i <= bn,
            lex_lt(a@, b@) == lex_lt(a@.skip(i as int), b@.skip(i as int)),
        decreases an - i,
    {
        let x = av[i];
        let y = bv[i];
        proof {
            assert(a@.skip(i as int)[0] == x);
            assert(b@.skip(i as int)[0] == y);
        }
        if x != y {
            let lt = x < y;
            proof {
                assert(lex_lt(a@.skip(i as int), b@.skip(i as int)) == lt);
            }
            return lt;
        }
        proof {
            assert(a@.skip(i as int).drop_first() =~= a@.skip(i + 1));
            assert(b@.skip(i as int).drop_first() =~= b@.skip(i + 1));
        }
        i += 1;
    }
    proof {
        if i == bn {
            assert(b@.skip(i as int).len() == 0);
        } else {
            assert(i == an);
            assert(a@.skip(i as int).len() == 0);
            assert(b@.skip(i as int).len() > 0);
        }
    }
    i < bn
}

proof fn lemma_lex_irrefl(a: Seq<char>)
    ensures
        !lex_lt(a, a),
    decreases a.len(),
{
    if a.len() > 0 {
        lemma_lex_irrefl(a.drop_first());
    }
}

proof fn lemma_table_find_present(m: Seq<MutantStateView>, x: Seq<char>, k: int)
    requires
        table_sorted(m),
        0 <= k < m.len(),
        m[k].spec.id == x,
    ensures
        table_find(m, x) == Some(m[k]),
{
    lemma_table_index_of(m, x);
    let io = table_index_of(m, x);
    if io < k {
        assert(lex_lt(m[io].spec.id, m[k].spec.id));
        lemma_lex_irrefl(x);
        assert(false);
    }
    assert(io == k);
}

proof fn lemma_apply_line_sorted(s: RunSnapshotView, line: LogLineView)
    requires
        table_sorted(s.mutants),
    ensures
        table_sorted(apply_line_spec(s, line).mutants),
{
    let n = apply_line_spec(s, line).mutants;
    match line {
        LogLineView::Event(e) => {
            match e {
                MutationEventView::MutantDiscovered { mutant, .. } => {
                    lemma_table_insert_sorted(s.mutants, fresh_state_view(mutant));
                },
                MutationEventView::MutantStarted { mutant_id, .. } => {
                    let i = table_index_of(s.mutants, mutant_id);
                    lemma_table_index_of(s.mutants, mutant_id);
                    if i < s.mutants.len() {
                        assert forall|a: int, b: int| 0 <= a < b < n.len() implies lex_lt(
                            #[trigger] n[a].spec.id,
                            #[trigger] n[b].spec.id,
                        ) by {
                            assert(n[a].spec.id == s.mutants[a].spec.id);
                            assert(n[b].spec.id == s.mutants[b].spec.id);
                        }
                    }
                },
                MutationEventView::MutantFinished { mutant_id, .. } => {
                    let i = table_index_of(s.mutants, mutant_id);
                    lemma_table_index_of(s.mutants, mutant_id);
                    if i < s.mutants.len() {
                        assert forall|a: int, b: int| 0 <= a < b < n.len() implies lex_lt(
                            #[trigger] n[a].spec.id,
                            #[trigger] n[b].spec.id,
                        ) by {
                            assert(n[a].spec.id == s.mutants[a].spec.id);
                            assert(n[b].spec.id == s.mutants[b].spec.id);
                        }
                    }
                },
                _ => {},
            }
        },
        LogLineView::Text(_) => {},
    }
}

/// Every snapshot a replay produces keeps its mutant table strictly
/// sorted by id.
pub proof fn lemma_replay_sorted(lines: Seq<LogLineView>)
    ensures
        table_sorted(replay_spec(lines).mutants),
    decreases lines.len(),
{
    if lines.len() > 0 {
        lemma_replay_sorted(lines.drop_last());
        lemma_apply_line_sorted(replay_spec(lines.drop_last()), lines.last());
    }
}

/// Determinism law: replaying the same decoded log twice yields the same
/// snapshot — in particular the same run id, the same per-mutant states,
/// and the same malformed-line count.  [`replay_log`] returns exactly
/// `replay_spec` of its input, so two replays of equal logs cannot differ.
pub proof fn lemma_replay_deterministic(a: Seq<LogLineView>, b: Seq<LogLineView>)
    requires
        a == b,
    ensures
        replay_spec(a).run_id == replay_spec(b).run_id,
        replay_spec(a).mutants == replay_spec(b).mutants,
        replay_spec(a).malformed_lines == replay_spec(b).malformed_lines,
        replay_spec(a) == replay_spec(b),
{
}

/// Malformed-tail tolerance law: appending one line that does not decode
/// as an event and is not blank increments the malformed-line count by
/// exactly one (saturating at the counter's maximum) and leaves every
/// other part of the snapshot — run id, mutant states, flags, info —
/// unchanged.
pub proof fn lemma_malformed_tail(lines: Seq<LogLineView>, t: Seq<char>)
    requires
        trim_spec(t).len() != 0,
    ensures
        ({
            let before = replay_spec(lines);
            let after = replay_spec(lines.push(LogLineView::Text(t)));
            &&& after.run_id == before.run_id
            &&& after.mutants == before.mutants
            &&& after.interrupted == before.interrupted
            &&& after.completed == before.completed
            &&& after.info == before.info
            &&& after.malformed_lines == if before.malformed_lines < usize::MAX {
                before.malformed_lines + 1
            } else {
                before.malformed_lines as int
            }
        }),
{
    let ext = lines.push(LogLineView::Text(t));
    assert(ext.drop_last() =~= lines);
    assert(ext.last() == LogLineView::Text(t));
}

/// Crash-safety law: if the log holds a `MutantStarted` for a mutant that
/// was already discovered, and afterwards neither a `MutantFinished` nor a
/// fresh `MutantDiscovered` for that mutant, then the replayed snapshot
/// reports that mutant as `Running` — so resume treats it as pending work.
pub proof fn lemma_started_without_finish(lines: Seq<LogLineView>, i: int, x: Seq<char>)
    requires
        0 <= i < lines.len(),
        lines[i] matches LogLineView::Event(MutationEventView::MutantStarted {
            mutant_id,
            ..
        }) && mutant_id == x,
        table_find(replay_spec(lines.take(i)).mutants, x) is Some,
        forall|j: int|
            i < j < lines.len() ==> !((#[trigger] lines[j]) matches LogLineView::Event(
                MutationEventView::MutantFinished { mutant_id, .. },
            ) && mutant_id == x),
        forall|j: int|
            i < j < lines.len() ==> !((#[trigger] lines[j]) matches LogLineView::Event(
                MutationEventView::MutantDiscovered { mutant, .. },
            ) && mutant.id == x),
    ensures
        table_find(replay_spec(lines).mutants, x) matches Some(st) && st.status
            is Running,
    decreases lines.len(),
{
    lemma_replay_sorted(lines.take(i));
    let before = replay_spec(lines.take(i));
    lemma_table_index_of(before.mutants, x);
    if i == lines.len() - 1 {
        assert(lines.take(i) =~= lines.drop_last());
        assert(lines.last() == lines[i]);
        let ix = table_index_of(before.mutants, x);
        let after = replay_spec(lines);
        assert(after.mutants == before.mutants.update(
            ix,
            apply_started_view(before.mutants[ix], lines[i]->Event_0->MutantStarted_timestamp_ms),
        ));
        lemma_apply_line_sorted(before, lines[i]);
        lemma_table_find_present(after.mutants, x, ix);
    } else {
        let shorter = lines.drop_last();
        assert(shorter.take(i) =~= lines.take(i));
        assert(forall|j: int| 0 <= j < shorter.len() ==> #[trigger] shorter[j] == lines[j]);
        lemma_started_without_finish(shorter, i, x);
        let mid = replay_spec(shorter);
        lemma_replay_sorted(shorter);
        lemma_table_index_of(mid.mutants, x);
        let st = table_find(mid.mutants, x)->Some_0;
        let kx = table_index_of(mid.mutants, x);
        let last = lines.last();
        assert(last == lines[lines.len() - 1]);
        let after = replay_spec(lines);
        assert(after == apply_line_spec(mid, last));
        lemma_apply_line_sorted(mid, last);
        match last {
            LogLineView::Event(e) => {
                match e {
                    MutationEventView::MutantDiscovered { mutant, .. } => {
                        assert(mutant.id != x);
                        let fresh = fresh_state_view(mutant);
                        let p = insert_pos(mid.mutants, mutant.id);
                        lemma_insert_pos(mid.mutants, mutant.id);
                        if p < mid.mutants.len() && mid.mutants[p].spec.id == mutant.id {
                            assert(p != kx);
                            assert(after.mutants[kx] == st);
                            lemma_table_find_present(after.mutants, x, kx);
                        } else {
                            mid.mutants.insert_ensures(p, fresh);
                            if kx < p {
                                assert(after.mutants[kx] == st);
                                lemma_table_find_present(after.mutants, x, kx);
                            } else {
                                assert(after.mutants[kx + 1] == st);
                                lemma_table_find_present(after.mutants, x, kx + 1);
                            }
                        }
                    },
                    MutationEventView::MutantStarted { mutant_id, timestamp_ms, .. } => {
                        let ky = table_index_of(mid.mutants, mutant_id);
                        lemma_table_index_of(mid.mutants, mutant_id);
                        if ky < mid.mutants.len() {
                            if mutant_id == x {
                                assert(ky == kx);
                                assert(after.mutants[kx] == apply_started_view(st, timestamp_ms));
                                lemma_table_find_present(after.mutants, x, kx);
                            } else {
                                assert(mid.mutants[ky].spec.id != x);
                                assert(ky != kx);
                                assert(after.mutants[kx] == st);
                                lemma_table_find_present(after.mutants, x, kx);
                            }
                        }
                    },
                    MutationEventView::MutantFinished { mutant_id, .. } => {
                        assert(mutant_id != x);
                        let ky = table_index_of(mid.mutants, mutant_id);
                        lemma_table_index_of(mid.mutants, mutant_id);
                        if ky < mid.mutants.len() {
                            assert(mid.mutants[ky].spec.id != x);
                            assert(ky != kx);
                            assert(after.mutants[kx] == st);
                            lemma_table_find_present(after.mutants, x, kx);
                        }
                    },
                    _ => {
                        assert(after.mutants == mid.mutants);
                    },
                }
            },
            LogLineView::Text(_) => {
                assert(after.mutants == mid.mutants);
            },
        }
    }
}

/// A run whose log holds no `RunCompleted` event is not complete.
pub proof fn lemma_no_completion(lines: Seq<LogLineView>)
    requires
        forall|j: int|
            0 <= j < lines.len() ==> !((#[trigger] lines[j]) matches LogLineView::Event(
                MutationEventView::RunCompleted { .. },
            )),
    ensures
        !replay_spec(lines).completed,
    decreases lines.len(),
{
    if lines.len() > 0 {
        let shorter = lines.drop_last();
        assert(forall|j: int| 0 <= j < shorter.len() ==> #[trigger] shorter[j] == lines[j]);
        lemma_no_completion(shorter);
        assert(lines.last() == lines[lines.len() - 1]);
    }
}

/// Interrupt correctness law: appending a `RunInterrupted` event marks
/// the snapshot interrupted and changes nothing else — the completion
/// flag, the mutant states (so also the pending queue), the run id and
/// the malformed-line count all stay as they were.  In particular a run
/// that was not complete before the interrupt is not complete after it.
pub proof fn lemma_interrupt_tail(
    lines: Seq<LogLineView>,
    run_id: Seq<char>,
    ts: i64,
    reason: Seq<char>,
)
    ensures
        ({
            let before = replay_spec(lines);
            let after = replay_spec(
                lines.push(
                    LogLineView::Event(
                        MutationEventView::RunInterrupted { run_id, timestamp_ms: ts, reason },
                    ),
                ),
            );
            &&& after.interrupted
            &&& after.completed == before.completed
            &&& after.mutants == before.mutants
            &&& after.run_id == before.run_id
            &&& after.malformed_lines == before.malformed_lines
            &&& after.info == before.info
        }),
{
    let ext = lines.push(
        LogLineView::Event(
            MutationEventView::RunInterrupted { run_id, timestamp_ms: ts, reason },
        ),
    );
    assert(ext.drop_last() =~= lines);
    assert(ext.last() == LogLineView::Event(
        MutationEventView::RunInterrupted { run_id, timestamp_ms: ts, reason },
    ));
}

/// A mutant reported `Running` (or still `Pending`) is part of the
/// pending queue: its descriptor appears in [`pending_of`].
pub proof fn lemma_nonterminal_is_pending(m: Seq<MutantStateView>, k: int)
    requires
        0 <= k < m.len(),
        !is_terminal_status(m[k].status),
    ensures
        pending_of(m).contains(m[k].spec),
    decreases m.len(),
{
    if k == m.len() - 1 {
        assert(m.last() == m[k]);
        let p = pending_of(m);
        assert(p[p.len() - 1] == m[k].spec);
    } else {
        lemma_nonterminal_is_pending(m.drop_last(), k);
        let inner = pending_of(m.drop_last());
        let j = choose|j: int| 0 <= j < inner.len() && inner[j] == m[k].spec;
        assert(pending_of(m)[j] == m[k].spec);
    }
}

/// The ordered position of `id` in the table: its index if present, else
/// where it would be inserted.
fn table_position(mutants: &Vec<MutantState>, id: &String) -> (p: usize)
    ensures
        p == insert_pos(table_view(mutants@), id@),
        p <= mutants@.len(),
{
    proof {
        lemma_insert_pos(table_view(mutants@), id@);
    }
    let n = mutants.len();
    let mut i: usize = 0;
    while i < n && str_lex_lt(mutants[i].spec.id.as_str(), id.as_str())
        invariant
            n == mutants@.len(),
            i <= n,
            forall|k: int| 0 <= k < i ==> lex_lt(#[trigger] table_view(mutants@)[k].spec.id, id@),
        decreases n - i,
    {
        i += 1;
    }
    proof {
        let mv = table_view(mutants@);
        let p = insert_pos(mv, id@);
        if i < p {
            assert(lex_lt(mv[i as int].spec.id, id@));
            assert(i < n);
            assert(false);
        }
        if i > p {
            assert(p < n);
            assert(lex_lt(mv[p].spec.id, id@));
            assert(false);
        }
    }
    i
}

/// The index of `id` in the table, or the table's length if absent.
fn table_lookup(mutants: &Vec<MutantState>, id: &String) -> (i: usize)
    ensures
        i == table_index_of(table_view(mutants@), id@),
        i <= mutants@.len(),
{
    proof {
        lemma_table_index_of(table_view(mutants@), id@);
    }
    let n = mutants.len();
    let mut i: usize = 0;
    while i < n && !mutants[i].spec.id.eq(id)
        invariant
            n == mutants@.len(),
            i <= n,
            forall|k: int| 0 <= k < i ==> (#[trigger] table_view(mutants@)[k].spec.id) != id@,
        decreases n - i,
    {
        i += 1;
    }
    proof {
        let mv = table_view(mutants@);
        let p = table_index_of(mv, id@);
        if i < p {
            assert(mv[i as int].spec.id != id@);
            assert(i < n);
            assert(false);
        }
        if i > p {
            assert(p < n);
            assert(mv[p].spec.id == id@);
            assert(false);
        }
    }
    i
}

/// Applies one event to the snapshot, exactly as [`apply_event_spec`]
/// describes.
fn apply_event(snap: &mut RunSnapshot, event: &MutationEvent)
    requires
        table_sorted(old(snap)@.mutants),
    ensures
        final(snap)@ == apply_event_spec(old(snap)@, event@),
        table_sorted(final(snap)@.mutants),
{
    match event {
        MutationEvent::RunStarted { run_id, config, metadata, .. } => {
            if snap.run_id.as_str().is_empty() {
                snap.run_id = run_id.clone();
            }
            snap.info = RunInfo {
                config: match config {
                    Some(c) => Some(c.clone()),
                    None => None,
                },
                metadata: match metadata {
                    Some(m) => Some(m.clone()),
                    None => None,
                },
            };
            proof {
                assert(final(snap)@ =~= apply_event_spec(old(snap)@, event@));
            }
        },
        MutationEvent::RunResumed { run_id, .. } => {
            if snap.run_id.as_str().is_empty() {
                snap.run_id = run_id.clone();
            }
            proof {
                assert(final(snap)@ =~= apply_event_spec(old(snap)@, event@));
            }
        },
        MutationEvent::MutantDiscovered { mutant, .. } => {
            let st = MutantState {
                spec: mutant.clone(),
                status: MutationStatus::Pending,
                started_at_ms: None,
                finished_at_ms: None,
                duration_ms: None,
                exit_code: None,
                stdout_artifact_path: None,
                stderr_artifact_path: None,
                last_error: None,
                tests_run: Vec::new(),
                tests_failed: Vec::new(),
                stdout_preview: None,
                stderr_preview: None,
            };
            proof {
                assert(st@ =~= fresh_state_view(mutant@));
                lemma_insert_pos(table_view(snap.mutants@), mutant.id@);
            }
            let p = table_position(&snap.mutants, &mutant.id);
            let n = snap.mutants.len();
            if p < n && snap.mutants[p].spec.id.eq(&mutant.id) {
                snap.mutants.set(p, st);
                proof {
                    assert(table_view(snap.mutants@) =~= table_insert(
                        table_view(old(snap).mutants@),
                        fresh_state_view(mutant@),
                    ));
                    assert(final(snap)@ =~= apply_event_spec(old(snap)@, event@));
                    lemma_table_insert_sorted(
                        table_view(old(snap).mutants@),
                        fresh_state_view(mutant@),
                    );
                }
            } else {
                snap.mutants.insert(p, st);
                proof {
                    let old_mv = table_view(old(snap).mutants@);
                    old(snap).mutants@.insert_ensures(p as int, st);
                    old_mv.insert_ensures(p as int, st@);
                    assert(table_view(snap.mutants@) =~= old_mv.insert(p as int, st@));
                    assert(table_view(snap.mutants@) =~= table_insert(
                        old_mv,
                        fresh_state_view(mutant@),
                    ));
                    assert(final(snap)@ =~= apply_event_spec(old(snap)@, event@));
                    lemma_table_insert_sorted(old_mv, fresh_state_view(mutant@));
                }
            }
        },
        MutationEvent::MutantStarted { mutant_id, timestamp_ms, .. } => {
            proof {
                lemma_table_index_of(table_view(snap.mutants@), mutant_id@);
            }
            let i = table_lookup(&snap.mutants, mutant_id);
            let n = snap.mutants.len();
            if i < n {
                let mut st = snap.mutants[i].clone();
                st.status = MutationStatus::Running;
                st.started_at_ms = Some(*timestamp_ms);
                proof {
                    assert(st@ =~= apply_started_view(
                        table_view(old(snap).mutants@)[i as int],
                        *timestamp_ms,
                    ));
                }
                snap.mutants.set(i, st);
                proof {
                    let old_mv = table_view(old(snap).mutants@);
                    assert(table_view(snap.mutants@) =~= old_mv.update(
                        i as int,
                        apply_started_view(old_mv[i as int], *timestamp_ms),
                    ));
                    assert(final(snap)@ =~= apply_event_spec(old(snap)@, event@));
                    assert forall|a: int, b: int|
                        0 <= a < b < table_view(snap.mutants@).len() implies lex_lt(
                        #[trigger] table_view(snap.mutants@)[a].spec.id,
                        #[trigger] table_view(snap.mutants@)[b].spec.id,
                    ) by {
                        assert(table_view(snap.mutants@)[a].spec.id == old_mv[a].spec.id);
                        assert(table_view(snap.mutants@)[b].spec.id == old_mv[b].spec.id);
                    }
                }
            } else {
                proof {
                    assert(final(snap)@ =~= apply_event_spec(old(snap)@, event@));
                }
            }
        },
        MutationEvent::MutantFinished {
            mutant_id,
            timestamp_ms,
            outcome,
            exit_code,
            stdout_artifact_path,
            stderr_artifact_path,
            started_at_ms,
            finished_at_ms: _,
            duration_ms,
            tests_run,
            tests_failed,
            stdout_preview,
            stderr_preview,
            ..
        } => {
            proof {
                lemma_table_index_of(table_view(snap.mutants@), mutant_id@);
            }
            let i = table_lookup(&snap.mutants, mutant_id);
            let n = snap.mutants.len();
            if i < n {
                let mut st = snap.mutants[i].clone();
                st.finished_at_ms = Some(*timestamp_ms);
                st.started_at_ms = match started_at_ms {
                    Some(s) => Some(*s),
                    None => st.started_at_ms,
                };
                st.duration_ms = match duration_ms {
                    Some(d) => Some(*d),
                    None => match (st.started_at_ms, st.finished_at_ms) {
                        (Some(start), Some(finish)) => match finish.checked_sub(start) {
                            Some(delta) => if delta >= 0 {
                                Some(delta as u64)
                            } else {
                                None
                            },
                            None => None,
                        },
                        _ => None,
                    },
                };
                st.exit_code = *exit_code;
                st.stdout_artifact_path = clone_opt_string(stdout_artifact_path);
                st.stderr_artifact_path = clone_opt_string(stderr_artifact_path);
                st.tests_run = clone_string_vec(tests_run);
                st.tests_failed = clone_failures(tests_failed);
                st.stdout_preview = clone_opt_string(stdout_preview);
                st.stderr_preview = clone_opt_string(stderr_preview);
                match outcome {
                    MutationOutcome::Killed => {
                        st.status = MutationStatus::Killed;
                    },
                    MutationOutcome::Survived => {
                        st.status = MutationStatus::Survived;
                    },
                    MutationOutcome::Timeout => {
                        st.status = MutationStatus::Timeout;
                    },
                    MutationOutcome::Unviable => {
                        st.status = MutationStatus::Unviable;
                    },
                    MutationOutcome::Skipped => {
                        st.status = MutationStatus::Skipped;
                    },
                    MutationOutcome::Error { message } => {
                        st.status = MutationStatus::Error;
                        st.last_error = Some(message.clone());
                    },
                }
                proof {
                    let old_mv = table_view(old(snap).mutants@);
                    assert(st@ =~= apply_finished_view(
                        old_mv[i as int],
                        *timestamp_ms,
                        outcome@,
                        *exit_code,
                        opt_string_view(*stdout_artifact_path),
                        opt_string_view(*stderr_artifact_path),
                        *started_at_ms,
                        *duration_ms,
                        strings_view(tests_run@),
                        failures_view(tests_failed@),
                        opt_string_view(*stdout_preview),
                        opt_string_view(*stderr_preview),
                    ));
                }
                snap.mutants.set(i, st);
                proof {
                    let old_mv = table_view(old(snap).mutants@);
                    assert(table_view(snap.mutants@) =~= old_mv.update(
                        i as int,
                        table_view(snap.mutants@)[i as int],
                    ));
                    assert(final(snap)@ =~= apply_event_spec(old(snap)@, event@));
                    assert forall|a: int, b: int|
                        0 <= a < b < table_view(snap.mutants@).len() implies lex_lt(
                        #[trigger] table_view(snap.mutants@)[a].spec.id,
                        #[trigger] table_view(snap.mutants@)[b].spec.id,
                    ) by {
                        assert(table_view(snap.mutants@)[a].spec.id == old_mv[a].spec.id);
                        assert(table_view(snap.mutants@)[b].spec.id == old_mv[b].spec.id);
                    }
                }
            } else {
                proof {
                    assert(final(snap)@ =~= apply_event_spec(old(snap)@, event@));
                }
            }
        },
        MutationEvent::RunInterrupted { .. } => {
            snap.interrupted = true;
            proof {
                assert(final(snap)@ =~= apply_event_spec(old(snap)@, event@));
            }
        },
        MutationEvent::RunCompleted { .. } => {
            snap.completed = true;
            proof {
                assert(final(snap)@ =~= apply_event_spec(old(snap)@, event@));
            }
        },
    }
}

/// Replays decoded event-log lines into a snapshot: the executable form
/// of [`replay_spec`].  A line that decoded to an event is applied; a
/// blank line is skipped; any other line only bumps the malformed-line
/// counter and never aborts the replay.
pub fn replay_log(lines: &Vec<LogLine>) -> (snap: RunSnapshot)
    ensures
        snap@ == replay_spec(lines_view(lines@)),
        table_sorted(snap@.mutants),
{
    let mut snap = RunSnapshot {
        run_id: String::new(),
        mutants: Vec::new(),
        malformed_lines: 0,
        interrupted: false,
        completed: false,
        info: RunInfo { config: None, metadata: None },
    };
    proof {
        assert(snap@ =~= empty_snapshot_view());
        assert(lines_view(lines@).take(0) =~= Seq::<LogLineView>::empty());
    }
    let n = lines.len();
    let mut i: usize = 0;
    while i < n
        invariant
            n == lines@.len(),
            i <= n,
            snap@ == replay_spec(lines_view(lines@).take(i as int)),
            table_sorted(snap@.mutants),
        decreases n - i,
    {
        let ghost lv = lines_view(lines@);
        match &lines[i] {
            LogLine::Event(event) => {
                apply_event(&mut snap, event);
            },
            LogLine::Text(t) => {
                let blank = is_blank(t.as_str());
                if !blank {
                    if snap.malformed_lines < usize::MAX {
                        snap.malformed_lines = snap.malformed_lines + 1;
                    }
                }
                proof {
                    assert(snap@ =~= apply_line_spec(replay_spec(lv.take(i as int)), lv[i as int]));
                }
            },
        }
        proof {
            assert(lv.take(i + 1).drop_last() =~= lv.take(i as int));
            assert(lv.take(i + 1).last() == lv[i as int]);
            assert(lv[i as int] == lines@[i as int]@);
            assert(snap@ == replay_spec(lv.take(i + 1)));
        }
        i += 1;
    }
    proof {
        assert(lines_view(lines@).take(n as int) =~= lines_view(lines@));
    }
    snap
}

} // verus!

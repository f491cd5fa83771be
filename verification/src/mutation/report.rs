//! Report data derived from a run snapshot.
//!
//! The aggregate counts and the mutation score are computed here with
//! exact contracts; rendering them into Markdown, JSON, SARIF or JUnit
//! text is presentation work for the embedding program.

use vstd::prelude::*;
use vstd::arithmetic::div_mod::lemma_div_is_ordered;
use vstd::arithmetic::div_mod::lemma_div_multiples_vanish_fancy;
use vstd::string::StrSliceExecFns;
use vstd::string::StringExecFns;
use crate::mutation::events::MutantSpec;
use crate::mutation::events::MutationType;
use crate::mutation::events::RunConfigSnapshot;
use crate::mutation::events::RunMetadata;
use crate::mutation::events::RunMetadataView;
use crate::mutation::events::RunConfigSnapshotView;
use crate::mutation::events::TestFailure;
use crate::mutation::events::TestFailureView;
use crate::mutation::events::clone_opt_string;
use crate::mutation::events::clone_string_vec;
use crate::mutation::events::failures_view;
use crate::mutation::events::opt_string_view;
use crate::mutation::events::strings_view;
use crate::mutation::state::MutantState;
use crate::mutation::state::MutantStateView;
use crate::mutation::state::MutationStatus;
use crate::mutation::state::RunSnapshot;
use crate::mutation::text::dec_rep;
use crate::mutation::text::hex_char;
use crate::mutation::text::append_hex_digit;
use crate::mutation::text::push_dec_u64;

verus! {

/// Supported output formats for run reports.
#[derive(Debug, Clone, Copy, PartialEq, Eq, Structural)]
pub enum ReportFormat {
    /// Markdown summary.
    Markdown,
    /// JSON summary with all mutants inline.
    Json,
    /// SARIF format for code-scanning services.
    Sarif,
    /// JUnit XML format for CI systems.
    Junit,
}

/// The snake-case name of a status.
pub open spec fn status_text(s: MutationStatus) -> Seq<char> {
    match s {
        MutationStatus::Pending => "pending"@,
        MutationStatus::Running => "running"@,
        MutationStatus::Killed => "killed"@,
        MutationStatus::Survived => "survived"@,
        MutationStatus::Timeout => "timeout"@,
        MutationStatus::Unviable => "unviable"@,
        MutationStatus::Skipped => "skipped"@,
        MutationStatus::Error => "error"@,
    }
}

/// Renders a status as its snake-case name.
pub fn status_to_string(status: &MutationStatus) -> (r: String)
    ensures
        r@ == status_text(*status),
{
    let text = match status {
        MutationStatus::Pending => "pending",
        MutationStatus::Running => "running",
        MutationStatus::Killed => "killed",
        MutationStatus::Survived => "survived",
        MutationStatus::Timeout => "timeout",
        MutationStatus::Unviable => "unviable",
        MutationStatus::Skipped => "skipped",
        MutationStatus::Error => "error",
    };
    text.to_owned()
}

/// The snake-case name of a mutation type.
pub open spec fn mutation_type_text(t: MutationType) -> Seq<char> {
    match t {
        MutationType::Arithmetic => "arithmetic"@,
        MutationType::Comparison => "comparison"@,
        MutationType::Logical => "logical"@,
        MutationType::Boolean => "boolean"@,
        MutationType::ReturnValue => "return_value"@,
        MutationType::MethodCall => "method_call"@,
        MutationType::Assignment => "assignment"@,
        MutationType::Boundary => "boundary"@,
        MutationType::Negation => "negation"@,
        MutationType::Unknown => "unknown"@,
    }
}

/// Test failure report entry.
#[derive(Debug, PartialEq, Eq)]
pub struct TestFailureReport {
    /// Test name.
    pub test_name: String,
    /// Failure message.
    pub message: Option<String>,
}

impl View for TestFailureReport {
    type V = TestFailureView;

    open spec fn view(&self) -> TestFailureView {
        TestFailureView {
            test_name: self.test_name@,
            message: opt_string_view(self.message),
        }
    }
}

/// Ghost mirror of [`MutantReport`].
#[verifier::ext_equal]
pub ghost struct MutantReportView {
    /// Mutant id.
    pub id: Seq<char>,
    /// Human-readable label.
    pub label: Seq<char>,
    /// Source file path.
    pub source_file: Seq<char>,
    /// Source line number.
    pub source_line: u32,
    /// Mutation type name.
    pub mutation_type: Seq<char>,
    /// Original code snippet.
    pub original_code: Seq<char>,
    /// Mutated code snippet.
    pub mutated_code: Seq<char>,
    /// Execution status name.
    pub status: Seq<char>,
    /// Duration in milliseconds.
    pub duration_ms: Option<u64>,
    /// Tests that ran.
    pub tests_run: Seq<Seq<char>>,
    /// Tests that failed.
    pub tests_failed: Seq<TestFailureView>,
    /// Stdout preview.
    pub stdout_preview: Option<Seq<char>>,
    /// Stderr preview.
    pub stderr_preview: Option<Seq<char>>,
}

/// Per-mutant report entry.
#[derive(Debug, PartialEq)]
pub struct MutantReport {
    /// Mutant id.
    pub id: String,
    /// Human-readable label.
    pub label: String,
    /// Source file path.
    pub source_file: String,
    /// Source line number.
    pub source_line: u32,
    /// Mutation type classification.
    pub mutation_type: String,
    /// Original code snippet.
    pub original_code: String,
    /// Mutated code snippet.
    pub mutated_code: String,
    /// Execution status.
    pub status: String,
    /// Duration in milliseconds.
    pub duration_ms: Option<u64>,
    /// Tests that ran.
    pub tests_run: Vec<String>,
    /// Tests that failed.
    pub tests_failed: Vec<TestFailureReport>,
    /// Stdout preview.
    pub stdout_preview: Option<String>,
    /// Stderr preview.
    pub stderr_preview: Option<String>,
}

impl View for MutantReport {
    type V = MutantReportView;

    open spec fn view(&self) -> MutantReportView {
        MutantReportView {
            id: self.id@,
            label: self.label@,
            source_file: self.source_file@,
            source_line: self.source_line,
            mutation_type: self.mutation_type@,
            original_code: self.original_code@,
            mutated_code: self.mutated_code@,
            status: self.status@,
            duration_ms: self.duration_ms,
            tests_run: strings_view(self.tests_run@),
            tests_failed: failure_reports_view(self.tests_failed@),
            stdout_preview: opt_string_view(self.stdout_preview),
            stderr_preview: opt_string_view(self.stderr_preview),
        }
    }
}

/// The views of a sequence of failure reports.
pub open spec fn failure_reports_view(v: Seq<TestFailureReport>) -> Seq<TestFailureView> {
    v.map_values(|t: TestFailureReport| t@)
}

/// The report entry a mutant state maps to.
pub open spec fn mutant_report_of(st: MutantStateView) -> MutantReportView {
    MutantReportView {
        id: st.spec.id,
        label: st.spec.label,
        source_file: st.spec.source_file,
        source_line: st.spec.source_line,
        mutation_type: mutation_type_text(st.spec.mutation_type),
        original_code: st.spec.original_code,
        mutated_code: st.spec.mutated_code,
        status: status_text(st.status),
        duration_ms: st.duration_ms,
        tests_run: st.tests_run,
        tests_failed: st.tests_failed,
        stdout_preview: st.stdout_preview,
        stderr_preview: st.stderr_preview,
    }
}

impl MutantReport {
    /// Builds the report entry for one mutant's recorded state.
    pub fn from_state(state: &MutantState) -> (r: MutantReport)
        ensures
            r@ == mutant_report_of(state@),
    {
        let mut failures: Vec<TestFailureReport> = Vec::new();
        let n = state.tests_failed.len();
        let mut i: usize = 0;
        proof {
            assert(failure_reports_view(failures@) =~= failures_view(state.tests_failed@.take(0)));
        }
        while i < n
            invariant
                n == state.tests_failed@.len(),
                i <= n,
                failure_reports_view(failures@) == failures_view(
                    state.tests_failed@.take(i as int),
                ),
            decreases n - i,
        {
            let f = &state.tests_failed[i];
            let ghost prev = failures@;
            let report = TestFailureReport {
                test_name: f.test_name.clone(),
                message: clone_opt_string(&f.message),
            };
            proof {
                assert(report@ == state.tests_failed@[i as int]@);
            }
            failures.push(report);
            proof {
                assert(failure_reports_view(prev).len() == prev.len());
                assert(failures_view(state.tests_failed@.take(i as int)).len() == i);
                assert(prev.len() == i);
                assert(failures@ == prev.push(report));
                assert forall|k: int| 0 <= k < i + 1 implies failure_reports_view(failures@)[k]
                    == failures_view(state.tests_failed@.take(i + 1))[k] by {
                    if k < i {
                        assert(failures@[k] == prev[k]);
                        assert(failure_reports_view(prev)[k] == failures_view(
                            state.tests_failed@.take(i as int),
                        )[k]);
                    } else {
                        assert(failures@[k] == report);
                    }
                }
                assert(failure_reports_view(failures@) =~= failures_view(
                    state.tests_failed@.take(i + 1),
                ));
            }
            i += 1;
        }
        proof {
            assert(state.tests_failed@.take(n as int) =~= state.tests_failed@);
        }
        let r = MutantReport {
            id: state.spec.id.clone(),
            label: state.spec.label.clone(),
            source_file: state.spec.source_file.clone(),
            source_line: state.spec.source_line,
            mutation_type: state.spec.mutation_type.as_text().to_owned(),
            original_code: state.spec.original_code.clone(),
            mutated_code: state.spec.mutated_code.clone(),
            status: status_to_string(&state.status),
            duration_ms: state.duration_ms,
            tests_run: clone_string_vec(&state.tests_run),
            tests_failed: failures,
            stdout_preview: clone_opt_string(&state.stdout_preview),
            stderr_preview: clone_opt_string(&state.stderr_preview),
        };
        proof {
            assert(r@ =~= mutant_report_of(state@));
        }
        r
    }
}

/// Run metadata for reports.
#[derive(Debug, PartialEq, Eq)]
pub struct RunMetadataReport {
    /// Rust compiler version.
    pub rustc_version: String,
    /// Cargo version.
    pub cargo_version: String,
    /// Mutation tool version.
    pub cargo_mutants_version: String,
    /// Git commit hash.
    pub git_commit: String,
    /// Git branch name.
    pub git_branch: String,
    /// Operating system.
    pub os: String,
    /// Architecture.
    pub arch: String,
}

impl View for RunMetadataReport {
    type V = RunMetadataView;

    open spec fn view(&self) -> RunMetadataView {
        RunMetadataView {
            rustc_version: self.rustc_version@,
            cargo_version: self.cargo_version@,
            cargo_mutants_version: self.cargo_mutants_version@,
            git_commit: self.git_commit@,
            git_branch: self.git_branch@,
            os: self.os@,
            arch: self.arch@,
        }
    }
}

impl RunMetadataReport {
    /// Builds the report form of run metadata.
    pub fn from_metadata(m: &RunMetadata) -> (r: RunMetadataReport)
        ensures
            r@ == m@,
    {
        RunMetadataReport {
            rustc_version: m.rustc_version.clone(),
            cargo_version: m.cargo_version.clone(),
            cargo_mutants_version: m.cargo_mutants_version.clone(),
            git_commit: m.git_commit.clone(),
            git_branch: m.git_branch.clone(),
            os: m.os.clone(),
            arch: m.arch.clone(),
        }
    }
}

/// Run config for reports.
#[derive(Debug, PartialEq, Eq)]
pub struct RunConfigReport {
    /// Timeout in seconds.
    pub timeout_secs: Option<u64>,
    /// Filter applied.
    pub filter: Option<String>,
}

impl View for RunConfigReport {
    type V = RunConfigSnapshotView;

    open spec fn view(&self) -> RunConfigSnapshotView {
        RunConfigSnapshotView {
            timeout_secs: self.timeout_secs,
            filter: opt_string_view(self.filter),
        }
    }
}

impl RunConfigReport {
    /// Builds the report form of a persisted run config.
    pub fn from_config(c: &RunConfigSnapshot) -> (r: RunConfigReport)
        ensures
            r@ == c@,
    {
        RunConfigReport { timeout_secs: c.timeout_secs, filter: clone_opt_string(&c.filter) }
    }
}

/// The number of mutants in the table with the given status.
pub open spec fn count_status(m: Seq<MutantStateView>, s: MutationStatus) -> int
    decreases m.len(),
{
    if m.len() == 0 {
        0
    } else {
        count_status(m.drop_last(), s) + if m.last().status == s {
            1int
        } else {
            0int
        }
    }
}

/// The mutation score in hundredths of a percent: killed over testable
/// (total minus skipped and unviable), rounded to the nearest hundredth;
/// a run with nothing testable scores a full 100 percent.
pub open spec fn score_hundredths_spec(killed: int, testable: int) -> int {
    if testable > 0 {
        (killed * 10000 + testable / 2) / testable
    } else {
        10000
    }
}

/// Aggregated run counts.
#[derive(Debug, Clone, Copy, PartialEq, Eq, Structural)]
pub struct RunSummary {
    /// Total discovered mutants.
    pub total: usize,
    /// Mutation score (killed / testable mutants) in hundredths of a
    /// percent.
    pub mutation_score_hundredths: u64,
    /// Killed mutants.
    pub killed: usize,
    /// Survived mutants.
    pub survived: usize,
    /// Timeout mutants.
    pub timeout: usize,
    /// Unviable mutants.
    pub unviable: usize,
    /// Skipped mutants.
    pub skipped: usize,
    /// Error mutants.
    pub error: usize,
    /// Still pending/running mutants.
    pub incomplete: usize,
}

impl RunSummary {
    /// Builds the summary of a snapshot: one count per status, and the
    /// mutation score over the testable mutants.
    pub fn from_snapshot(snapshot: &RunSnapshot) -> (r: RunSummary)
        ensures
            ({
                let m = snapshot@.mutants;
                &&& r.total == m.len()
                &&& r.killed == count_status(m, MutationStatus::Killed)
                &&& r.survived == count_status(m, MutationStatus::Survived)
                &&& r.timeout == count_status(m, MutationStatus::Timeout)
                &&& r.unviable == count_status(m, MutationStatus::Unviable)
                &&& r.skipped == count_status(m, MutationStatus::Skipped)
                &&& r.error == count_status(m, MutationStatus::Error)
                &&& r.incomplete == count_status(m, MutationStatus::Pending) + count_status(
                    m,
                    MutationStatus::Running,
                )
                &&& r.mutation_score_hundredths == score_hundredths_spec(
                    r.killed as int,
                    m.len() - r.skipped - r.unviable,
                )
            }),
    {
        let ghost m = snapshot@.mutants;
        let n = snapshot.mutants.len();
        let mut killed: usize = 0;
        let mut survived: usize = 0;
        let mut timeout: usize = 0;
        let mut unviable: usize = 0;
        let mut skipped: usize = 0;
        let mut error: usize = 0;
        let mut incomplete: usize = 0;
        let mut i: usize = 0;
        proof {
            assert(m.take(0) =~= Seq::<MutantStateView>::empty());
        }
        while i < n
            invariant
                n == snapshot.mutants@.len(),
                m == snapshot@.mutants,
                i <= n,
                killed == count_status(m.take(i as int), MutationStatus::Killed),
                survived == count_status(m.take(i as int), MutationStatus::Survived),
                timeout == count_status(m.take(i as int), MutationStatus::Timeout),
                unviable == count_status(m.take(i as int), MutationStatus::Unviable),
                skipped == count_status(m.take(i as int), MutationStatus::Skipped),
                error == count_status(m.take(i as int), MutationStatus::Error),
                incomplete == count_status(m.take(i as int), MutationStatus::Pending)
                    + count_status(m.take(i as int), MutationStatus::Running),
                killed + survived + timeout + unviable + skipped + error + incomplete == i,
            decreases n - i,
        {
            proof {
                assert(m.take(i + 1).drop_last() =~= m.take(i as int));
                assert(m.take(i + 1).last() == m[i as int]);
            }
            match snapshot.mutants[i].status {
                MutationStatus::Killed => {
                    killed += 1;
                },
                MutationStatus::Survived => {
                    survived += 1;
                },
                MutationStatus::Timeout => {
                    timeout += 1;
                },
                MutationStatus::Unviable => {
                    unviable += 1;
                },
                MutationStatus::Skipped => {
                    skipped += 1;
                },
                MutationStatus::Error => {
                    error += 1;
                },
                MutationStatus::Pending => {
                    incomplete += 1;
                },
                MutationStatus::Running => {
                    incomplete += 1;
                },
            }
            i += 1;
        }
        proof {
            assert(m.take(n as int) =~= m);
        }
        let testable = n - skipped - unviable;
        let score: u64 = if testable > 0 {
            let k = killed as u128;
            let t = testable as u128;
            let s = (k * 10000 + t / 2) / t;
            proof {
                assert(killed <= testable);
                assert(k * 10000 + t / 2 <= t * 10000 + t / 2) by (nonlinear_arith)
                    requires
                        k <= t,
                ;
                lemma_div_is_ordered(
                    (k * 10000 + t / 2) as int,
                    (t as int) * 10000 + (t as int) / 2,
                    t as int,
                );
                lemma_div_multiples_vanish_fancy(10000, (t as int) / 2, t as int);
                assert(s <= 10000);
            }
            s as u64
        } else {
            10000
        };
        RunSummary {
            total: n,
            mutation_score_hundredths: score,
            killed,
            survived,
            timeout,
            unviable,
            skipped,
            error,
            incomplete,
        }
    }

    /// The mutation score as percent text with two decimal places, for
    /// example `50.00`.
    pub fn mutation_score_text(&self) -> (r: String)
        ensures
            r@ == dec_rep((self.mutation_score_hundredths / 100) as nat) + seq!['.'] + seq![
                hex_char(((self.mutation_score_hundredths / 10) % 10) as int),
                hex_char((self.mutation_score_hundredths % 10) as int),
            ],
    {
        let mut out = String::new();
        push_dec_u64(&mut out, self.mutation_score_hundredths / 100);
        proof {
            reveal_strlit(".");
        }
        out.append(".");
        append_hex_digit(&mut out, ((self.mutation_score_hundredths / 10) % 10) as u8);
        append_hex_digit(&mut out, (self.mutation_score_hundredths % 10) as u8);
        proof {
            assert(out@ =~= dec_rep((self.mutation_score_hundredths / 100) as nat) + seq!['.']
                + seq![
                hex_char(((self.mutation_score_hundredths / 10) % 10) as int),
                hex_char((self.mutation_score_hundredths % 10) as int),
            ]);
        }
        out
    }
}

} // verus!

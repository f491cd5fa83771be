//! Event model for append-only mutation run logs.

use vstd::prelude::*;
use vstd::string::StrSliceExecFns;
use vstd::string::StringExecFns;
use crate::mutation::text::chars_vec;
use crate::mutation::text::contains_ci;
use crate::mutation::text::text_contains_ci;

verus! {

/// Classification of mutation type for analysis.
#[derive(Debug, Clone, Copy, PartialEq, Eq, Structural)]
pub enum MutationType {
    /// Arithmetic operator mutation (+, -, *, /, %).
    Arithmetic,
    /// Comparison operator mutation (==, !=, <, >, <=, >=).
    Comparison,
    /// Logical operator mutation (&&, ||, !).
    Logical,
    /// Boolean literal mutation (true <-> false).
    Boolean,
    /// Return value mutation.
    ReturnValue,
    /// Method call removal or replacement.
    MethodCall,
    /// Assignment mutation.
    Assignment,
    /// Boundary condition mutation.
    Boundary,
    /// Negation insertion or removal.
    Negation,
    /// Unknown or unclassified mutation type.
    Unknown,
}

impl Default for MutationType {
    /// The default classification is `Unknown`.
    fn default() -> (r: Self)
        ensures
            r == MutationType::Unknown,
    {
        Self::Unknown
    }
}

impl MutationType {
    /// The snake-case name of the classification.
    pub fn as_text(&self) -> (r: &'static str)
        ensures
            *self is Arithmetic ==> r@ == "arithmetic"@,
            *self is Comparison ==> r@ == "comparison"@,
            *self is Logical ==> r@ == "logical"@,
            *self is Boolean ==> r@ == "boolean"@,
            *self is ReturnValue ==> r@ == "return_value"@,
            *self is MethodCall ==> r@ == "method_call"@,
            *self is Assignment ==> r@ == "assignment"@,
            *self is Boundary ==> r@ == "boundary"@,
            *self is Negation ==> r@ == "negation"@,
            *self is Unknown ==> r@ == "unknown"@,
    {
        match self {
            Self::Arithmetic => "arithmetic",
            Self::Comparison => "comparison",
            Self::Logical => "logical",
            Self::Boolean => "boolean",
            Self::ReturnValue => "return_value",
            Self::MethodCall => "method_call",
            Self::Assignment => "assignment",
            Self::Boundary => "boundary",
            Self::Negation => "negation",
            Self::Unknown => "unknown",
        }
    }
}

/// Ghost mirror of [`MutantSpec`].
#[verifier::ext_equal]
pub ghost struct MutantSpecView {
    /// Stable identifier.
    pub id: Seq<char>,
    /// Human-readable description.
    pub label: Seq<char>,
    /// Engine-specific selector token.
    pub selector: Seq<char>,
    /// Source file path.
    pub source_file: Seq<char>,
    /// Source line number.
    pub source_line: u32,
    /// Classification of mutation type.
    pub mutation_type: MutationType,
    /// Original code snippet.
    pub original_code: Seq<char>,
    /// Mutated code snippet.
    pub mutated_code: Seq<char>,
}

/// Stable mutant descriptor discovered from a mutation engine.
#[derive(Debug, PartialEq, Eq)]
pub struct MutantSpec {
    /// Stable identifier.
    pub id: String,
    /// Human-readable description.
    pub label: String,
    /// Engine-specific selector token for reruns.
    pub selector: String,
    /// Source file path relative to project root.
    pub source_file: String,
    /// Source line number (1-indexed).
    pub source_line: u32,
    /// Classification of mutation type.
    pub mutation_type: MutationType,
    /// Original code snippet before mutation.
    pub original_code: String,
    /// Mutated code snippet.
    pub mutated_code: String,
}

impl View for MutantSpec {
    type V = MutantSpecView;

    open spec fn view(&self) -> MutantSpecView {
        MutantSpecView {
            id: self.id@,
            label: self.label@,
            selector: self.selector@,
            source_file: self.source_file@,
            source_line: self.source_line,
            mutation_type: self.mutation_type,
            original_code: self.original_code@,
            mutated_code: self.mutated_code@,
        }
    }
}

impl Clone for MutantSpec {
    /// Clones every field; the copy equals the original.
    fn clone(&self) -> (r: Self)
        ensures
            r == *self,
    {
        MutantSpec {
            id: self.id.clone(),
            label: self.label.clone(),
            selector: self.selector.clone(),
            source_file: self.source_file.clone(),
            source_line: self.source_line,
            mutation_type: self.mutation_type,
            original_code: self.original_code.clone(),
            mutated_code: self.mutated_code.clone(),
        }
    }
}

/// Ghost mirror of [`TestFailure`].
#[verifier::ext_equal]
pub ghost struct TestFailureView {
    /// Test name or path.
    pub test_name: Seq<char>,
    /// Assertion or failure message.
    pub message: Option<Seq<char>>,
}

/// Test failure details for killed mutants.
#[derive(Debug, PartialEq, Eq)]
pub struct TestFailure {
    /// Test name or path.
    pub test_name: String,
    /// Assertion or failure message.
    pub message: Option<String>,
}

impl View for TestFailure {
    type V = TestFailureView;

    open spec fn view(&self) -> TestFailureView {
        TestFailureView {
            test_name: self.test_name@,
            message: match self.message {
                Some(m) => Some(m@),
                None => None,
            },
        }
    }
}

impl Clone for TestFailure {
    /// Clones every field; the copy equals the original.
    fn clone(&self) -> (r: Self)
        ensures
            r == *self,
    {
        TestFailure {
            test_name: self.test_name.clone(),
            message: match &self.message {
                Some(m) => Some(m.clone()),
                None => None,
            },
        }
    }
}

/// Ghost mirror of [`MutationOutcome`].
#[verifier::ext_equal]
pub ghost enum MutationOutcomeView {
    /// Tests failed (mutant killed).
    Killed,
    /// Tests passed (mutant survived).
    Survived,
    /// Timed out.
    Timeout,
    /// Mutant was invalid/unviable.
    Unviable,
    /// Mutant was intentionally skipped.
    Skipped,
    /// Execution ended with an error message.
    Error(Seq<char>),
}

/// Outcome of executing tests against a mutant.
#[derive(Debug, PartialEq, Eq)]
pub enum MutationOutcome {
    /// Tests failed (mutant killed).
    Killed,
    /// Tests passed (mutant survived).
    Survived,
    /// Timed out.
    Timeout,
    /// Mutant was invalid/unviable.
    Unviable,
    /// Mutant was intentionally skipped.
    Skipped,
    /// Execution ended with an error.
    Error {
        /// Human-readable engine or execution error detail.
        message: String,
    },
}

impl View for MutationOutcome {
    type V = MutationOutcomeView;

    open spec fn view(&self) -> MutationOutcomeView {
        match self {
            MutationOutcome::Killed => MutationOutcomeView::Killed,
            MutationOutcome::Survived => MutationOutcomeView::Survived,
            MutationOutcome::Timeout => MutationOutcomeView::Timeout,
            MutationOutcome::Unviable => MutationOutcomeView::Unviable,
            MutationOutcome::Skipped => MutationOutcomeView::Skipped,
            MutationOutcome::Error { message } => MutationOutcomeView::Error(message@),
        }
    }
}

impl Clone for MutationOutcome {
    /// Clones the outcome; the copy equals the original.
    fn clone(&self) -> (r: Self)
        ensures
            r == *self,
    {
        match self {
            MutationOutcome::Killed => MutationOutcome::Killed,
            MutationOutcome::Survived => MutationOutcome::Survived,
            MutationOutcome::Timeout => MutationOutcome::Timeout,
            MutationOutcome::Unviable => MutationOutcome::Unviable,
            MutationOutcome::Skipped => MutationOutcome::Skipped,
            MutationOutcome::Error { message } => MutationOutcome::Error {
                message: message.clone(),
            },
        }
    }
}

/// Ghost mirror of [`RunConfigSnapshot`].
#[verifier::ext_equal]
pub ghost struct RunConfigSnapshotView {
    /// Per-mutant timeout in seconds.
    pub timeout_secs: Option<u64>,
    /// Filter applied to mutant selection.
    pub filter: Option<Seq<char>>,
}

/// Snapshot of configuration for reproducibility.
#[derive(Debug, PartialEq, Eq)]
pub struct RunConfigSnapshot {
    /// Per-mutant timeout in seconds.
    pub timeout_secs: Option<u64>,
    /// Filter applied to mutant selection.
    pub filter: Option<String>,
}

impl View for RunConfigSnapshot {
    type V = RunConfigSnapshotView;

    open spec fn view(&self) -> RunConfigSnapshotView {
        RunConfigSnapshotView {
            timeout_secs: self.timeout_secs,
            filter: match self.filter {
                Some(f) => Some(f@),
                None => None,
            },
        }
    }
}

impl Clone for RunConfigSnapshot {
    /// Clones every field; the copy equals the original.
    fn clone(&self) -> (r: Self)
        ensures
            r == *self,
    {
        RunConfigSnapshot {
            timeout_secs: self.timeout_secs,
            filter: match &self.filter {
                Some(f) => Some(f.clone()),
                None => None,
            },
        }
    }
}

/// Ghost mirror of [`RunMetadata`].
#[verifier::ext_equal]
pub ghost struct RunMetadataView {
    /// Rust compiler version.
    pub rustc_version: Seq<char>,
    /// Cargo version.
    pub cargo_version: Seq<char>,
    /// Mutation tool version.
    pub cargo_mutants_version: Seq<char>,
    /// Git commit hash.
    pub git_commit: Seq<char>,
    /// Git branch name.
    pub git_branch: Seq<char>,
    /// Host operating system.
    pub os: Seq<char>,
    /// Host architecture.
    pub arch: Seq<char>,
}

/// Environment metadata for reproducibility and debugging.
#[derive(Debug, PartialEq, Eq)]
pub struct RunMetadata {
    /// Rust compiler version.
    pub rustc_version: String,
    /// Cargo version.
    pub cargo_version: String,
    /// cargo-mutants version if available.
    pub cargo_mutants_version: String,
    /// Git commit hash.
    pub git_commit: String,
    /// Git branch name.
    pub git_branch: String,
    /// Host operating system.
    pub os: String,
    /// Host architecture.
    pub arch: String,
}

impl View for RunMetadata {
    type V = RunMetadataView;

    open spec fn view(&self) -> RunMetadataView {
        RunMetadataView {
            rustc_version: self.rustc_version@,
            cargo_version: self.cargo_version@,
            cargo_mutants_version: self.cargo_mutants_version@,
            git_commit: self.git_commit@,
            git_branch: self.git_branch@,
            os: self.os@,
            arch: self.arch@,
        }
    }
}

impl Clone for RunMetadata {
    /// Clones every field; the copy equals the original.
    fn clone(&self) -> (r: Self)
        ensures
            r == *self,
    {
        RunMetadata {
            rustc_version: self.rustc_version.clone(),
            cargo_version: self.cargo_version.clone(),
            cargo_mutants_version: self.cargo_mutants_version.clone(),
            git_commit: self.git_commit.clone(),
            git_branch: self.git_branch.clone(),
            os: self.os.clone(),
            arch: self.arch.clone(),
        }
    }
}

/// Clones a vector of strings element by element; the copy equals the
/// original.
pub fn clone_string_vec(v: &Vec<String>) -> (r: Vec<String>)
    ensures
        r@ == v@,
{
    let n = v.len();
    let mut r: Vec<String> = Vec::new();
    let mut i: usize = 0;
    while i < n
        invariant
            n == v@.len(),
            i <= n,
            r@ == v@.take(i as int),
        decreases n - i,
    {
        r.push(v[i].clone());
        proof {
            assert(r@ =~= v@.take(i + 1));
        }
        i += 1;
    }
    proof {
        assert(v@.take(n as int) =~= v@);
    }
    r
}

/// Clones a vector of test failures element by element; the copy equals
/// the original.
pub fn clone_failures(v: &Vec<TestFailure>) -> (r: Vec<TestFailure>)
    ensures
        r@ == v@,
{
    let n = v.len();
    let mut r: Vec<TestFailure> = Vec::new();
    let mut i: usize = 0;
    while i < n
        invariant
            n == v@.len(),
            i <= n,
            r@ == v@.take(i as int),
        decreases n - i,
    {
        r.push(v[i].clone());
        proof {
            assert(r@ =~= v@.take(i + 1));
        }
        i += 1;
    }
    proof {
        assert(v@.take(n as int) =~= v@);
    }
    r
}

/// Clones an optional string; the copy equals the original.
pub fn clone_opt_string(v: &Option<String>) -> (r: Option<String>)
    ensures
        r == *v,
{
    match v {
        Some(s) => Some(s.clone()),
        None => None,
    }
}

/// Ghost mirror of [`MutationEvent`].
#[verifier::ext_equal]
pub ghost enum MutationEventView {
    /// New run created with metadata.
    RunStarted {
        /// Run id.
        run_id: Seq<char>,
        /// Unix timestamp millis.
        timestamp_ms: i64,
        /// Number of mutants discovered for this run.
        discovered: usize,
        /// Configuration snapshot.
        config: Option<RunConfigSnapshotView>,
        /// Environment metadata.
        metadata: Option<RunMetadataView>,
    },
    /// Existing run resumed.
    RunResumed {
        /// Run id.
        run_id: Seq<char>,
        /// Unix timestamp millis.
        timestamp_ms: i64,
        /// Number of remaining mutants before resume.
        remaining: usize,
    },
    /// Mutant known for this run.
    MutantDiscovered {
        /// Run id.
        run_id: Seq<char>,
        /// Unix timestamp millis.
        timestamp_ms: i64,
        /// Discovered mutant.
        mutant: MutantSpecView,
    },
    /// Mutant execution started.
    MutantStarted {
        /// Run id.
        run_id: Seq<char>,
        /// Unix timestamp millis.
        timestamp_ms: i64,
        /// Mutant id.
        mutant_id: Seq<char>,
    },
    /// Mutant execution finished.
    MutantFinished {
        /// Run id.
        run_id: Seq<char>,
        /// Unix timestamp millis.
        timestamp_ms: i64,
        /// Mutant id.
        mutant_id: Seq<char>,
        /// Final outcome.
        outcome: MutationOutcomeView,
        /// Optional process exit code.
        exit_code: Option<i32>,
        /// Optional relative stdout artifact path.
        stdout_artifact_path: Option<Seq<char>>,
        /// Optional relative stderr artifact path.
        stderr_artifact_path: Option<Seq<char>>,
        /// Optional start timestamp.
        started_at_ms: Option<i64>,
        /// Optional finish timestamp.
        finished_at_ms: Option<i64>,
        /// Optional runtime in milliseconds.
        duration_ms: Option<u64>,
        /// Test names that ran against this mutant.
        tests_run: Seq<Seq<char>>,
        /// Tests that failed.
        tests_failed: Seq<TestFailureView>,
        /// Preview of stdout output.
        stdout_preview: Option<Seq<char>>,
        /// Preview of stderr output.
        stderr_preview: Option<Seq<char>>,
    },
    /// Run interrupted by signal or operator.
    RunInterrupted {
        /// Run id.
        run_id: Seq<char>,
        /// Unix timestamp millis.
        timestamp_ms: i64,
        /// Free-form reason.
        reason: Seq<char>,
    },
    /// Run completed terminally.
    RunCompleted {
        /// Run id.
        run_id: Seq<char>,
        /// Unix timestamp millis.
        timestamp_ms: i64,
    },
}

/// The view of an optional string.
pub open spec fn opt_string_view(o: Option<String>) -> Option<Seq<char>> {
    match o {
        Some(s) => Some(s@),
        None => None,
    }
}

/// The views of a sequence of strings.
pub open spec fn strings_view(v: Seq<String>) -> Seq<Seq<char>> {
    v.map_values(|s: String| s@)
}

/// The views of a sequence of test failures.
pub open spec fn failures_view(v: Seq<TestFailure>) -> Seq<TestFailureView> {
    v.map_values(|t: TestFailure| t@)
}

/// Log event emitted during mutation orchestration.
#[derive(Debug, PartialEq)]
pub enum MutationEvent {
    /// New run created with metadata.
    RunStarted {
        /// Run id.
        run_id: String,
        /// Unix timestamp millis.
        timestamp_ms: i64,
        /// Number of mutants discovered for this run.
        discovered: usize,
        /// Configuration snapshot for reproducibility.
        config: Option<RunConfigSnapshot>,
        /// Environment metadata.
        metadata: Option<RunMetadata>,
    },
    /// Existing run resumed.
    RunResumed {
        /// Run id.
        run_id: String,
        /// Unix timestamp millis.
        timestamp_ms: i64,
        /// Number of remaining mutants before resume.
        remaining: usize,
    },
    /// Mutant known for this run.
    MutantDiscovered {
        /// Run id.
        run_id: String,
        /// Unix timestamp millis.
        timestamp_ms: i64,
        /// Discovered mutant.
        mutant: MutantSpec,
    },
    /// Mutant execution started.
    MutantStarted {
        /// Run id.
        run_id: String,
        /// Unix timestamp millis.
        timestamp_ms: i64,
        /// Mutant id.
        mutant_id: String,
    },
    /// Mutant execution finished.
    MutantFinished {
        /// Run id.
        run_id: String,
        /// Unix timestamp millis.
        timestamp_ms: i64,
        /// Mutant id.
        mutant_id: String,
        /// Final outcome.
        outcome: MutationOutcome,
        /// Optional process exit code.
        exit_code: Option<i32>,
        /// Optional relative stdout artifact path.
        stdout_artifact_path: Option<String>,
        /// Optional relative stderr artifact path.
        stderr_artifact_path: Option<String>,
        /// Optional start timestamp.
        started_at_ms: Option<i64>,
        /// Optional finish timestamp.
        finished_at_ms: Option<i64>,
        /// Optional runtime in milliseconds.
        duration_ms: Option<u64>,
        /// Test names that ran against this mutant.
        tests_run: Vec<String>,
        /// Tests that failed (for killed mutants).
        tests_failed: Vec<TestFailure>,
        /// Preview of stdout output (first N characters).
        stdout_preview: Option<String>,
        /// Preview of stderr output (first N characters).
        stderr_preview: Option<String>,
    },
    /// Run interrupted by signal or operator.
    RunInterrupted {
        /// Run id.
        run_id: String,
        /// Unix timestamp millis.
        timestamp_ms: i64,
        /// Free-form reason.
        reason: String,
    },
    /// Run completed terminally.
    RunCompleted {
        /// Run id.
        run_id: String,
        /// Unix timestamp millis.
        timestamp_ms: i64,
    },
}

impl View for MutationEvent {
    type V = MutationEventView;

    open spec fn view(&self) -> MutationEventView {
        match self {
            MutationEvent::RunStarted { run_id, timestamp_ms, discovered, config, metadata } => {
                MutationEventView::RunStarted {
                    run_id: run_id@,
                    timestamp_ms: *timestamp_ms,
                    discovered: *discovered,
                    config: match config {
                        Some(c) => Some(c@),
                        None => None,
                    },
                    metadata: match metadata {
                        Some(m) => Some(m@),
                        None => None,
                    },
                }
            },
            MutationEvent::RunResumed { run_id, timestamp_ms, remaining } => {
                MutationEventView::RunResumed {
                    run_id: run_id@,
                    timestamp_ms: *timestamp_ms,
                    remaining: *remaining,
                }
            },
            MutationEvent::MutantDiscovered { run_id, timestamp_ms, mutant } => {
                MutationEventView::MutantDiscovered {
                    run_id: run_id@,
                    timestamp_ms: *timestamp_ms,
                    mutant: mutant@,
                }
            },
            MutationEvent::MutantStarted { run_id, timestamp_ms, mutant_id } => {
                MutationEventView::MutantStarted {
                    run_id: run_id@,
                    timestamp_ms: *timestamp_ms,
                    mutant_id: mutant_id@,
                }
            },
            MutationEvent::MutantFinished {
                run_id,
                timestamp_ms,
                mutant_id,
                outcome,
                exit_code,
                stdout_artifact_path,
                stderr_artifact_path,
                started_at_ms,
                finished_at_ms,
                duration_ms,
                tests_run,
                tests_failed,
                stdout_preview,
                stderr_preview,
            } => {
                MutationEventView::MutantFinished {
                    run_id: run_id@,
                    timestamp_ms: *timestamp_ms,
                    mutant_id: mutant_id@,
                    outcome: outcome@,
                    exit_code: *exit_code,
                    stdout_artifact_path: opt_string_view(*stdout_artifact_path),
                    stderr_artifact_path: opt_string_view(*stderr_artifact_path),
                    started_at_ms: *started_at_ms,
                    finished_at_ms: *finished_at_ms,
                    duration_ms: *duration_ms,
                    tests_run: strings_view(tests_run@),
                    tests_failed: failures_view(tests_failed@),
                    stdout_preview: opt_string_view(*stdout_preview),
                    stderr_preview: opt_string_view(*stderr_preview),
                }
            },
            MutationEvent::RunInterrupted { run_id, timestamp_ms, reason } => {
                MutationEventView::RunInterrupted {
                    run_id: run_id@,
                    timestamp_ms: *timestamp_ms,
                    reason: reason@,
                }
            },
            MutationEvent::RunCompleted { run_id, timestamp_ms } => {
                MutationEventView::RunCompleted { run_id: run_id@, timestamp_ms: *timestamp_ms }
            },
        }
    }
}

/// Relies on std::time::SystemTime: the saturating number of milliseconds
/// since the Unix epoch, by the system clock.  Never negative.
#[verifier::external_body]
pub fn now_timestamp_ms() -> (t: i64)
    ensures
        t >= 0,
{
    let now = std::time::SystemTime::now();
    let duration = now
        .duration_since(std::time::UNIX_EPOCH)
        .unwrap_or_else(|_| std::time::Duration::from_secs(0));
    (duration.as_secs() as i64)
        .saturating_mul(1000)
        .saturating_add(duration.subsec_millis() as i64)
}

/// Maximum characters to include in stdout/stderr previews.
pub const OUTPUT_PREVIEW_MAX_CHARS: usize = 4096;

/// Truncates output to the preview size, ending a truncated preview with
/// `...`.
pub fn truncate_preview(output: &str) -> (r: String)
    ensures
        output@.len() <= OUTPUT_PREVIEW_MAX_CHARS ==> r@ == output@,
        output@.len() > OUTPUT_PREVIEW_MAX_CHARS ==> r@ == output@.take(
            OUTPUT_PREVIEW_MAX_CHARS - 3,
        ) + "..."@,
{
    let n = output.unicode_len();
    if n <= OUTPUT_PREVIEW_MAX_CHARS {
        output.to_owned()
    } else {
        let head = output.substring_char(0, OUTPUT_PREVIEW_MAX_CHARS - 3);
        let mut r = head.to_owned();
        r.append("...");
        proof {
            assert(output@.subrange(0, OUTPUT_PREVIEW_MAX_CHARS - 3) =~= output@.take(
                OUTPUT_PREVIEW_MAX_CHARS - 3,
            ));
        }
        r
    }
}

/// What [`parse_mutation_type`] decides when no operator-replacement rule
/// applied: keyword checks in a fixed order.
pub open spec fn classify_rest_spec(label: Seq<char>) -> MutationType {
    if contains_ci(label, "return"@) {
        MutationType::ReturnValue
    } else if contains_ci(label, "call"@) || contains_ci(label, "method"@) {
        MutationType::MethodCall
    } else if contains_ci(label, "assign"@) || contains_ci(label, "="@) {
        MutationType::Assignment
    } else if contains_ci(label, "boundary"@) || contains_ci(label, "off by one"@) {
        MutationType::Boundary
    } else if contains_ci(label, "negate"@) || contains_ci(label, "negation"@) {
        MutationType::Negation
    } else {
        MutationType::Unknown
    }
}

/// The classification [`parse_mutation_type`] returns: keyword heuristics
/// over the label, case-insensitively, in a fixed priority order.
pub open spec fn parse_mutation_type_spec(label: Seq<char>) -> MutationType {
    if contains_ci(label, "replace "@) || contains_ci(label, " -> "@) {
        if contains_ci(label, "+"@) || contains_ci(label, "-"@) || contains_ci(label, "*"@)
            || contains_ci(label, "/"@) || contains_ci(label, "%"@) {
            if contains_ci(label, "=="@) || contains_ci(label, "!="@) || contains_ci(label, "<"@)
                || contains_ci(label, ">"@) {
                MutationType::Comparison
            } else {
                MutationType::Arithmetic
            }
        } else if contains_ci(label, "&&"@) || contains_ci(label, "||"@) || contains_ci(
            label,
            "!"@,
        ) {
            MutationType::Logical
        } else if contains_ci(label, "true"@) || contains_ci(label, "false"@) {
            MutationType::Boolean
        } else {
            classify_rest_spec(label)
        }
    } else {
        classify_rest_spec(label)
    }
}

/// Parses the mutation type from a label string (best-effort keyword
/// classification, case-insensitive, in a fixed priority order).
pub fn parse_mutation_type(label: &str) -> (t: MutationType)
    ensures
        t == parse_mutation_type_spec(label@),
{
    let chars = chars_vec(label);
    if text_contains_ci(&chars, "replace ") || text_contains_ci(&chars, " -> ") {
        if text_contains_ci(&chars, "+") || text_contains_ci(&chars, "-") || text_contains_ci(
            &chars,
            "*",
        ) || text_contains_ci(&chars, "/") || text_contains_ci(&chars, "%") {
            if text_contains_ci(&chars, "==") || text_contains_ci(&chars, "!=")
                || text_contains_ci(&chars, "<") || text_contains_ci(&chars, ">") {
                return MutationType::Comparison;
            }
            return MutationType::Arithmetic;
        }
        if text_contains_ci(&chars, "&&") || text_contains_ci(&chars, "||") || text_contains_ci(
            &chars,
            "!",
        ) {
            return MutationType::Logical;
        }
        if text_contains_ci(&chars, "true") || text_contains_ci(&chars, "false") {
            return MutationType::Boolean;
        }
    }
    if text_contains_ci(&chars, "return") {
        return MutationType::ReturnValue;
    }
    if text_contains_ci(&chars, "call") || text_contains_ci(&chars, "method") {
        return MutationType::MethodCall;
    }
    if text_contains_ci(&chars, "assign") || text_contains_ci(&chars, "=") {
        return MutationType::Assignment;
    }
    if text_contains_ci(&chars, "boundary") || text_contains_ci(&chars, "off by one") {
        return MutationType::Boundary;
    }
    if text_contains_ci(&chars, "negate") || text_contains_ci(&chars, "negation") {
        return MutationType::Negation;
    }
    MutationType::Unknown
}

} // verus!

//! Mutation run orchestration: the decisions behind new runs, resumes and
//! survivor re-tests.
//!
//! The filesystem walking, subprocess spawning and signal handling around
//! a run belong to the embedding program; everything that *decides* —
//! which run to pick up, what to schedule in which order, what follows
//! from an engine failure — is verified here with exact contracts.

use vstd::prelude::*;
use vstd::string::StrSliceExecFns;
use vstd::string::StringExecFns;
use crate::mutation::config::MutationConfig;
use crate::mutation::config::MutationConfigView;
use crate::mutation::engine::MutantExecutionResult;
use crate::mutation::engine::MutationEngineError;
use crate::mutation::events::MutantSpec;
use crate::mutation::events::MutantSpecView;
use crate::mutation::state::MutationStateError;
use crate::mutation::state::RunSnapshot;
use crate::mutation::state::RunSnapshotView;
use crate::mutation::state::pending_of;
use crate::mutation::state::specs_view;
use crate::mutation::state::survivors_of;
use crate::mutation::text::chars_vec;
use crate::mutation::text::contains_exact;
use crate::mutation::text::text_contains;
use crate::mutation::text::find_char;
use crate::mutation::text::find_char_spec;
use crate::mutation::text::parse_u64_span;
use crate::mutation::text::parse_uint_spec;
use crate::mutation::text::str_eq;
use crate::mutation::events::MutationOutcome;
use crate::mutation::events::MutationOutcomeView;

verus! {

/// Run orchestration errors.
#[derive(Debug)]
pub enum MutationRunError {
    /// State layer error.
    State(MutationStateError),
    /// Engine error.
    Engine(MutationEngineError),
    /// IO error.
    Io(std::io::Error),
    /// Signal handler installation failed.
    Signal(String),
}

/// Result returned by run/resume operations.
#[derive(Debug)]
pub struct RunResult {
    /// Run id.
    pub run_id: String,
    /// Path of the run directory.
    pub run_dir: String,
    /// Materialized snapshot after the operation.
    pub snapshot: RunSnapshot,
}

/// The three numeric components of a run id, used to order runs by
/// recency.
#[derive(Debug, Clone, Copy, PartialEq, Eq, Structural)]
pub struct RunIdKey {
    /// Unix timestamp in milliseconds.
    pub timestamp_ms: i64,
    /// Process id of the creating process.
    pub pid: u32,
    /// Per-process sequence number.
    pub sequence: u64,
}

/// What parsing a run id of the shape `run-<ms>-<pid>-<seq>` yields:
/// the three numeric components, or nothing if the name has another
/// shape or a component does not fit its type.  Text after a fourth
/// dash is ignored.
pub open spec fn parse_run_id_spec(s: Seq<char>) -> Option<RunIdKey> {
    let p1 = find_char_spec(s, '-', 0);
    if s.take(p1) != "run"@ || p1 == s.len() {
        None
    } else {
        let p2 = find_char_spec(s, '-', p1 + 1);
        if p2 == s.len() {
            None
        } else {
            let p3 = find_char_spec(s, '-', p2 + 1);
            if p3 == s.len() {
                None
            } else {
                let p4 = find_char_spec(s, '-', p3 + 1);
                let ts = parse_uint_spec(s.subrange(p1 + 1, p2));
                let pid = parse_uint_spec(s.subrange(p2 + 1, p3));
                let sq = parse_uint_spec(s.subrange(p3 + 1, p4));
                if (ts matches Some(t) && t <= i64::MAX) && (pid matches Some(p) && p
                    <= u32::MAX) && (sq matches Some(q) && q <= u64::MAX) {
                    Some(
                        RunIdKey {
                            timestamp_ms: ts->Some_0 as i64,
                            pid: pid->Some_0 as u32,
                            sequence: sq->Some_0 as u64,
                        },
                    )
                } else {
                    None
                }
            }
        }
    }
}

/// Parses a run directory name of the shape `run-<ms>-<pid>-<seq>`.
pub fn parse_run_id_key(run_id: &str) -> (r: Option<RunIdKey>)
    ensures
        r == parse_run_id_spec(run_id@),
{
    let v = chars_vec(run_id);
    let n = v.len();
    let p1 = find_char(&v, '-', 0);
    let prefix_ok = {
        let head = run_id.substring_char(0, p1);
        str_eq(head, "run")
    };
    proof {
        assert(run_id@.subrange(0, p1 as int) =~= run_id@.take(p1 as int));
    }
    if !prefix_ok || p1 == n {
        return None;
    }
    let p2 = find_char(&v, '-', p1 + 1);
    if p2 == n {
        return None;
    }
    let p3 = find_char(&v, '-', p2 + 1);
    if p3 == n {
        return None;
    }
    let p4 = find_char(&v, '-', p3 + 1);
    let ts = parse_u64_span(&v, p1 + 1, p2);
    let pid = parse_u64_span(&v, p2 + 1, p3);
    let sq = parse_u64_span(&v, p3 + 1, p4);
    match (ts, pid, sq) {
        (Some(t), Some(p), Some(q)) => {
            if t <= i64::MAX as u64 && p <= u32::MAX as u64 {
                Some(RunIdKey { timestamp_ms: t as i64, pid: p as u32, sequence: q })
            } else {
                None
            }
        },
        _ => None,
    }
}

/// Is the candidate key more recent than the current one, comparing
/// timestamp, then pid, then sequence?
pub open spec fn newer_key(candidate: RunIdKey, current: RunIdKey) -> bool {
    ||| candidate.timestamp_ms > current.timestamp_ms
    ||| (candidate.timestamp_ms == current.timestamp_ms && candidate.pid > current.pid)
    ||| (candidate.timestamp_ms == current.timestamp_ms && candidate.pid == current.pid
        && candidate.sequence > current.sequence)
}

/// Decides whether `candidate` names a more recent run than `current`.
pub fn is_newer_run_id(candidate: &RunIdKey, current: &RunIdKey) -> (r: bool)
    ensures
        r == newer_key(*candidate, *current),
{
    candidate.timestamp_ms > current.timestamp_ms || (candidate.timestamp_ms
        == current.timestamp_ms && candidate.pid > current.pid) || (candidate.timestamp_ms
        == current.timestamp_ms && candidate.pid == current.pid && candidate.sequence
        > current.sequence)
}

/// The persisted run config matches the requested config: same filter
/// and same timeout.
pub open spec fn compatible_spec(snapshot: RunSnapshotView, config: MutationConfigView) -> bool {
    &&& (match snapshot.info.config {
        Some(c) => c.filter,
        None => None,
    }) == config.filter
    &&& (match snapshot.info.config {
        Some(c) => c.timeout_secs,
        None => None,
    }) == config.timeout_secs
}

/// Decides whether a persisted snapshot was produced under the requested
/// configuration (same filter, same timeout).
pub fn is_snapshot_compatible(snapshot: &RunSnapshot, config: &MutationConfig) -> (r: bool)
    ensures
        r == compatible_spec(snapshot@, config@),
{
    let filter_ok = match (&snapshot.info.config, &config.filter) {
        (Some(c), Some(f)) => match &c.filter {
            Some(sf) => str_eq(sf.as_str(), f.as_str()),
            None => false,
        },
        (Some(c), None) => c.filter.is_none(),
        (None, Some(_)) => false,
        (None, None) => true,
    };
    if !filter_ok {
        return false;
    }
    let snapshot_timeout = match &snapshot.info.config {
        Some(c) => c.timeout_secs,
        None => None,
    };
    match (snapshot_timeout, config.timeout_secs) {
        (Some(a), Some(b)) => a == b,
        (None, None) => true,
        _ => false,
    }
}

/// One run directory offered to the selection policy: its name and the
/// snapshot replayed from its log.
#[derive(Debug)]
pub struct RunCandidate {
    /// The run directory's name.
    pub run_id: String,
    /// The snapshot replayed from the run's log.
    pub snapshot: RunSnapshot,
}

/// Ghost mirror of [`RunCandidate`].
#[verifier::ext_equal]
pub ghost struct RunCandidateView {
    /// The run directory's name.
    pub run_id: Seq<char>,
    /// The snapshot replayed from the run's log.
    pub snapshot: RunSnapshotView,
}

impl View for RunCandidate {
    type V = RunCandidateView;

    open spec fn view(&self) -> RunCandidateView {
        RunCandidateView { run_id: self.run_id@, snapshot: self.snapshot@ }
    }
}

/// The views of a sequence of candidates.
pub open spec fn candidates_view(v: Seq<RunCandidate>) -> Seq<RunCandidateView> {
    v.map_values(|c: RunCandidate| c@)
}

/// A candidate that resume would pick up: a well-formed run id, an
/// incomplete snapshot with pending work, produced under a matching
/// configuration.
pub open spec fn eligible_incomplete(c: RunCandidateView, config: MutationConfigView) -> bool {
    &&& parse_run_id_spec(c.run_id) is Some
    &&& !c.snapshot.completed
    &&& pending_of(c.snapshot.mutants).len() > 0
    &&& compatible_spec(c.snapshot, config)
}

/// A candidate that a survivor re-test would pick up: a well-formed run
/// id, a completed snapshot with at least one survivor, produced under a
/// matching configuration.
pub open spec fn eligible_completed_with_survivors(
    c: RunCandidateView,
    config: MutationConfigView,
) -> bool {
    &&& parse_run_id_spec(c.run_id) is Some
    &&& c.snapshot.completed
    &&& survivors_of(c.snapshot.mutants).len() > 0
    &&& compatible_spec(c.snapshot, config)
}

/// Picks the most recent incomplete, configuration-compatible run among
/// the candidates: the run that a new `run` invocation resumes instead
/// of starting afresh.  Among runs with equal keys the first listed
/// wins.
pub fn latest_incomplete_run_id(candidates: &Vec<RunCandidate>, config: &MutationConfig) -> (r:
    Option<String>)
    ensures
        r is None ==> forall|k: int|
            0 <= k < candidates@.len() ==> !eligible_incomplete(
                #[trigger] candidates_view(candidates@)[k],
                config@,
            ),
        r matches Some(id) ==> exists|k: int|
            {
                &&& 0 <= k < candidates@.len()
                &&& #[trigger] eligible_incomplete(candidates_view(candidates@)[k], config@)
                &&& candidates_view(candidates@)[k].run_id == id@
                &&& forall|j: int|
                    0 <= j < candidates@.len() && #[trigger] eligible_incomplete(
                        candidates_view(candidates@)[j],
                        config@,
                    ) ==> !newer_key(
                        parse_run_id_spec(candidates_view(candidates@)[j].run_id)->Some_0,
                        parse_run_id_spec(candidates_view(candidates@)[k].run_id)->Some_0,
                    )
            },
{
    let ghost cv = candidates_view(candidates@);
    let n = candidates.len();
    let mut best: Option<(RunIdKey, usize)> = None;
    let mut i: usize = 0;
    while i < n
        invariant
            n == candidates@.len(),
            cv == candidates_view(candidates@),
            i <= n,
            match best {
                None => forall|k: int|
                    0 <= k < i ==> !eligible_incomplete(#[trigger] cv[k], config@),
                Some((key, b)) => {
                    &&& b < i
                    &&& eligible_incomplete(cv[b as int], config@)
                    &&& parse_run_id_spec(cv[b as int].run_id) == Some(key)
                    &&& forall|j: int|
                        0 <= j < i && #[trigger] eligible_incomplete(cv[j], config@)
                            ==> !newer_key(parse_run_id_spec(cv[j].run_id)->Some_0, key)
                },
            },
        decreases n - i,
    {
        let candidate = &candidates[i];
        let parsed = parse_run_id_key(candidate.run_id.as_str());
        match parsed {
            Some(key) => {
                let completed = candidate.snapshot.completed;
                let pending = candidate.snapshot.pending_mutants();
                let compatible = is_snapshot_compatible(&candidate.snapshot, config);
                proof {
                    assert(specs_view(pending@).len() == pending@.len());
                }
                if !completed && pending.len() > 0 && compatible {
                    let replace = match &best {
                        None => true,
                        Some((current, _)) => is_newer_run_id(&key, current),
                    };
                    if replace {
                        best = Some((key, i));
                    }
                }
            },
            None => {},
        }
        i += 1;
    }
    match best {
        Some((_, b)) => Some(candidates[b].run_id.clone()),
        None => None,
    }
}

/// Picks the most recent completed, configuration-compatible run that
/// still has survivors: the run whose survivors a new `run` invocation
/// re-tests when no incomplete run exists.  Among runs with equal keys
/// the first listed wins.
pub fn latest_completed_run_with_survivors_id(
    candidates: &Vec<RunCandidate>,
    config: &MutationConfig,
) -> (r: Option<String>)
    ensures
        r is None ==> forall|k: int|
            0 <= k < candidates@.len() ==> !eligible_completed_with_survivors(
                #[trigger] candidates_view(candidates@)[k],
                config@,
            ),
        r matches Some(id) ==> exists|k: int|
            {
                &&& 0 <= k < candidates@.len()
                &&& #[trigger] eligible_completed_with_survivors(
                    candidates_view(candidates@)[k],
                    config@,
                )
                &&& candidates_view(candidates@)[k].run_id == id@
                &&& forall|j: int|
                    0 <= j < candidates@.len() && #[trigger] eligible_completed_with_survivors(
                        candidates_view(candidates@)[j],
                        config@,
                    ) ==> !newer_key(
                        parse_run_id_spec(candidates_view(candidates@)[j].run_id)->Some_0,
                        parse_run_id_spec(candidates_view(candidates@)[k].run_id)->Some_0,
                    )
            },
{
    let ghost cv = candidates_view(candidates@);
    let n = candidates.len();
    let mut best: Option<(RunIdKey, usize)> = None;
    let mut i: usize = 0;
    while i < n
        invariant
            n == candidates@.len(),
            cv == candidates_view(candidates@),
            i <= n,
            match best {
                None => forall|k: int|
                    0 <= k < i ==> !eligible_completed_with_survivors(#[trigger] cv[k], config@),
                Some((key, b)) => {
                    &&& b < i
                    &&& eligible_completed_with_survivors(cv[b as int], config@)
                    &&& parse_run_id_spec(cv[b as int].run_id) == Some(key)
                    &&& forall|j: int|
                        0 <= j < i && #[trigger] eligible_completed_with_survivors(cv[j], config@)
                            ==> !newer_key(parse_run_id_spec(cv[j].run_id)->Some_0, key)
                },
            },
        decreases n - i,
    {
        let candidate = &candidates[i];
        let parsed = parse_run_id_key(candidate.run_id.as_str());
        match parsed {
            Some(key) => {
                let completed = candidate.snapshot.completed;
                let survivors = candidate.snapshot.survivor_mutants();
                let compatible = is_snapshot_compatible(&candidate.snapshot, config);
                proof {
                    assert(specs_view(survivors@).len() == survivors@.len());
                }
                if completed && survivors.len() > 0 && compatible {
                    let replace = match &best {
                        None => true,
                        Some((current, _)) => is_newer_run_id(&key, current),
                    };
                    if replace {
                        best = Some((key, i));
                    }
                }
            },
            None => {},
        }
        i += 1;
    }
    match best {
        Some((_, b)) => Some(candidates[b].run_id.clone()),
        None => None,
    }
}

/// What a resume or survivor re-test should do: nothing, because the run
/// is already complete with no survivors, or execute a schedule of
/// mutants in the given order.
#[derive(Debug)]
pub enum ResumePlan {
    /// The run is already complete and has no survivors to re-test:
    /// return its snapshot unchanged and append no event.
    AlreadyComplete,
    /// Execute these mutants, in this order.
    Execute(Vec<MutantSpec>),
}

/// Plans a resume of the given run: a completed run with no survivors is
/// left untouched; otherwise survivors are scheduled first (to catch
/// regressions early), followed — unless the run was already completed —
/// by the still-pending mutants, each group in ascending id order.  A
/// mutant has exactly one status, so the surviving and the pending
/// mutants are disjoint and the concatenation holds no duplicate.
pub fn plan_resume(snapshot: &RunSnapshot) -> (plan: ResumePlan)
    ensures
        (snapshot@.completed && survivors_of(snapshot@.mutants).len() == 0) <==> plan
            is AlreadyComplete,
        plan matches ResumePlan::Execute(schedule) ==> specs_view(schedule@) == survivors_of(
            snapshot@.mutants,
        ) + (if snapshot@.completed {
            Seq::<crate::mutation::events::MutantSpecView>::empty()
        } else {
            pending_of(snapshot@.mutants)
        }),
{
    let survivors = snapshot.survivor_mutants();
    proof {
        assert(specs_view(survivors@).len() == survivors@.len());
    }
    if snapshot.completed && survivors.is_empty() {
        return ResumePlan::AlreadyComplete;
    }
    let mut schedule = survivors;
    if !snapshot.completed {
        let mut pending = snapshot.pending_mutants();
        let ghost schedule_before = schedule@;
        let ghost pending_view = specs_view(pending@);
        schedule.append(&mut pending);
        proof {
            assert(specs_view(schedule@) =~= specs_view(schedule_before) + pending_view);
        }
    }
    ResumePlan::Execute(schedule)
}

/// Plans a survivors-only re-test of the given run: if the run has no
/// survivors it is left untouched, otherwise exactly the survivor set is
/// scheduled, in ascending id order.
pub fn plan_rerun_survivors(snapshot: &RunSnapshot) -> (plan: ResumePlan)
    ensures
        (survivors_of(snapshot@.mutants).len() == 0) <==> plan is AlreadyComplete,
        plan matches ResumePlan::Execute(schedule) ==> specs_view(schedule@) == survivors_of(
            snapshot@.mutants,
        ),
{
    let survivors = snapshot.survivor_mutants();
    proof {
        assert(specs_view(survivors@).len() == survivors@.len());
    }
    if survivors.is_empty() {
        return ResumePlan::AlreadyComplete;
    }
    ResumePlan::Execute(survivors)
}

/// Absorbs an engine failure into a terminal outcome: a successful
/// execution is kept as it is, and every engine error becomes an `Error`
/// outcome carrying the error's message, so that one failing mutant can
/// never abort the run.
pub fn outcome_of_execution(result: Result<MutantExecutionResult, MutationEngineError>) -> (r:
    MutantExecutionResult)
    ensures
        result matches Ok(execution) ==> r == execution,
        result is Err ==> {
            &&& r@.outcome is Error
            &&& r@.exit_code is None
            &&& r@.stdout.len() == 0
            &&& r@.stderr.len() == 0
        },
        (result matches Err(e) && !(e is Io)) ==> r@.outcome == MutationOutcomeView::Error(
            error_message_spec(result->Err_0),
        ),
{
    match result {
        Ok(execution) => execution,
        Err(err) => {
            let message = err.message();
            proof {
                if !(err is Io) {
                    assert(message@ == error_message_spec(err));
                }
            }
            MutantExecutionResult {
                outcome: MutationOutcome::Error { message },
                exit_code: None,
                stdout: String::new(),
                stderr: String::new(),
            }
        },
    }
}

/// A filesystem-safe stand-in for one character of a mutant id.
pub open spec fn sanitize_char(c: char) -> char {
    if ('0' <= c && c <= '9') || ('a' <= c && c <= 'z') || ('A' <= c && c <= 'Z') || c == '-' || c
        == '_' {
        c
    } else {
        '_'
    }
}

/// A mutant id with every character outside `[0-9a-zA-Z_-]` replaced by
/// an underscore.
pub open spec fn sanitize_spec(s: Seq<char>) -> Seq<char> {
    s.map_values(|c: char| sanitize_char(c))
}

/// Maps a mutant id to a filesystem-safe token for artifact file names.
pub fn sanitize_mutant_id(mutant_id: &str) -> (r: String)
    ensures
        r@ == sanitize_spec(mutant_id@),
{
    let n = mutant_id.unicode_len();
    let mut out = String::new();
    proof {
        assert(out@ =~= sanitize_spec(mutant_id@.take(0)));
        reveal_strlit("_");
    }
    let mut i: usize = 0;
    while i < n
        invariant
            n == mutant_id@.len(),
            i <= n,
            out@ == sanitize_spec(mutant_id@.take(i as int)),
            "_"@ == seq!['_'],
        decreases n - i,
    {
        let c = mutant_id.get_char(i);
        let keep = ('0' <= c && c <= '9') || ('a' <= c && c <= 'z') || ('A' <= c && c <= 'Z') || c
            == '-' || c == '_';
        if keep {
            let piece = mutant_id.substring_char(i, i + 1);
            out.append(piece);
            proof {
                assert(mutant_id@.subrange(i as int, i + 1) =~= seq![c]);
            }
        } else {
            out.append("_");
        }
        proof {
            assert(out@ =~= sanitize_spec(mutant_id@.take(i + 1)));
        }
        i += 1;
    }
    proof {
        assert(mutant_id@.take(n as int) =~= mutant_id@);
    }
    out
}

/// The run-relative path of a mutant's captured stdout artifact.
pub fn stdout_artifact_rel(mutant_id: &str) -> (r: String)
    ensures
        r@ == "artifacts/"@ + sanitize_spec(mutant_id@) + ".stdout.log"@,
{
    let mut out = String::from_str("artifacts/");
    let safe = sanitize_mutant_id(mutant_id);
    out.append(safe.as_str());
    out.append(".stdout.log");
    out
}

/// The run-relative path of a mutant's captured stderr artifact.
pub fn stderr_artifact_rel(mutant_id: &str) -> (r: String)
    ensures
        r@ == "artifacts/"@ + sanitize_spec(mutant_id@) + ".stderr.log"@,
{
    let mut out = String::from_str("artifacts/");
    let safe = sanitize_mutant_id(mutant_id);
    out.append(safe.as_str());
    out.append(".stderr.log");
    out
}

/// A mutant matches a substring filter when its id, label or selector
/// contains the filter text.
pub open spec fn matches_filter_spec(m: MutantSpecView, filter: Seq<char>) -> bool {
    ||| contains_exact(m.id, filter)
    ||| contains_exact(m.label, filter)
    ||| contains_exact(m.selector, filter)
}

/// The mutants that survive the substring filter, in their given order.
pub open spec fn filtered_spec(mutants: Seq<MutantSpecView>, filter: Seq<char>) -> Seq<
    MutantSpecView,
>
    decreases mutants.len(),
{
    if mutants.len() == 0 {
        Seq::empty()
    } else {
        filtered_spec(mutants.drop_last(), filter) + if matches_filter_spec(
            mutants.last(),
            filter,
        ) {
            seq![mutants.last()]
        } else {
            Seq::empty()
        }
    }
}

/// Decides whether one mutant matches the substring filter.
pub fn mutant_matches_filter(mutant: &MutantSpec, filter: &str) -> (r: bool)
    ensures
        r == matches_filter_spec(mutant@, filter@),
{
    let id_chars = chars_vec(mutant.id.as_str());
    if text_contains(&id_chars, filter) {
        return true;
    }
    let label_chars = chars_vec(mutant.label.as_str());
    if text_contains(&label_chars, filter) {
        return true;
    }
    let selector_chars = chars_vec(mutant.selector.as_str());
    text_contains(&selector_chars, filter)
}

/// Keeps the mutants whose id, label or selector contains the filter
/// text, preserving discovery order.
pub fn filter_mutants(mutants: Vec<MutantSpec>, filter: &str) -> (r: Vec<MutantSpec>)
    ensures
        specs_view(r@) == filtered_spec(specs_view(mutants@), filter@),
{
    let ghost mv = specs_view(mutants@);
    let n = mutants.len();
    let mut kept: Vec<MutantSpec> = Vec::new();
    proof {
        assert(mv.take(0) =~= Seq::<crate::mutation::events::MutantSpecView>::empty());
        assert(specs_view(kept@) =~= filtered_spec(mv.take(0), filter@));
    }
    let mut i: usize = 0;
    while i < n
        invariant
            n == mutants@.len(),
            mv == specs_view(mutants@),
            i <= n,
            specs_view(kept@) == filtered_spec(mv.take(i as int), filter@),
        decreases n - i,
    {
        proof {
            assert(mv.take(i + 1).drop_last() =~= mv.take(i as int));
            assert(mv.take(i + 1).last() == mv[i as int]);
        }
        let keep = mutant_matches_filter(&mutants[i], filter);
        if keep {
            kept.push(mutants[i].clone());
            proof {
                assert(specs_view(kept@) =~= filtered_spec(mv.take(i + 1), filter@));
            }
        } else {
            proof {
                assert(specs_view(kept@) =~= filtered_spec(mv.take(i + 1), filter@));
            }
        }
        i += 1;
    }
    proof {
        assert(mv.take(n as int) =~= mv);
    }
    kept
}

/// The message text of a deterministic engine error (every variant but
/// the I/O one, whose text comes from the I/O error itself).
pub open spec fn error_message_spec(e: MutationEngineError) -> Seq<char> {
    match e {
        MutationEngineError::MissingCargoMutants => "cargo-mutants is not installed or not available as `cargo mutants`. Install with `cargo install cargo-mutants`."@,
        MutationEngineError::CommandFailed(detail) => "command execution failed: "@ + detail@,
        MutationEngineError::Unsupported(detail) => "unsupported cargo-mutants capability: "@
            + detail@,
        MutationEngineError::Io(_) => Seq::empty(),
    }
}

} // verus!

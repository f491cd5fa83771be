//! Mutation engine abstraction and the pure core of the external-tool
//! adapter.
//!
//! The adapter's knowledge of the external tool splits in two: running the
//! tool (a subprocess, owned by the embedding program) and making sense of
//! what it printed.  Everything in the second half — listing-output
//! parsing, stable mutant ids, outcome classification, selector escaping —
//! is verified here with exact contracts.

use vstd::prelude::*;
use vstd::string::StrSliceExecFns;
use vstd::string::StringSliceAdditionalSpecFns;
use vstd::string::StringExecFns;
use crate::mutation::config::MutationConfig;
use crate::mutation::events::MutantSpec;
use crate::mutation::events::MutantSpecView;
use crate::mutation::events::MutationOutcome;
use crate::mutation::events::MutationOutcomeView;
use crate::mutation::events::parse_mutation_type;
use crate::mutation::events::parse_mutation_type_spec;
use crate::mutation::state::io_error_text;
use crate::mutation::state::specs_view;
use crate::mutation::text::bytes_contain;
use crate::mutation::text::bytes_contain_pattern;
use crate::mutation::text::chars_vec;
use crate::mutation::text::contains_ci;
use crate::mutation::text::dec_bytes_rep;
use crate::mutation::text::find_char;
use crate::mutation::text::find_char_spec;
use crate::mutation::text::fnv1a;
use crate::mutation::text::fnv1a_spec;
use crate::mutation::text::hex_rep;
use crate::mutation::text::parse_u64_span;
use crate::mutation::text::parse_uint_spec;
use crate::mutation::text::push_dec_bytes;
use crate::mutation::text::push_hex_u64;
use crate::mutation::text::split_lines;
use crate::mutation::text::split_lines_from;
use crate::mutation::text::starts_with_pattern;
use crate::mutation::text::text_contains_ci;
use crate::mutation::text::trim;
use crate::mutation::text::trim_spec;

verus! {

/// Engine-level errors.
#[derive(Debug)]
pub enum MutationEngineError {
    /// The external mutation tool is unavailable.
    MissingCargoMutants,
    /// Underlying command execution failed.
    CommandFailed(String),
    /// Engine lacks a capability required for resumable single-mutant
    /// execution.
    Unsupported(String),
    /// IO failure.
    Io(std::io::Error),
}

impl MutationEngineError {
    /// A human-readable description of the error.
    pub fn message(&self) -> (r: String)
        ensures
            *self is MissingCargoMutants ==> r@
                == "cargo-mutants is not installed or not available as `cargo mutants`. Install with `cargo install cargo-mutants`."@,
            *self matches MutationEngineError::CommandFailed(detail) ==> r@
                == "command execution failed: "@ + detail@,
            *self matches MutationEngineError::Unsupported(detail) ==> r@
                == "unsupported cargo-mutants capability: "@ + detail@,
    {
        match self {
            MutationEngineError::MissingCargoMutants => String::from_str(
                "cargo-mutants is not installed or not available as `cargo mutants`. Install with `cargo install cargo-mutants`.",
            ),
            MutationEngineError::CommandFailed(detail) => {
                let mut out = String::from_str("command execution failed: ");
                out.append(detail.as_str());
                out
            },
            MutationEngineError::Unsupported(detail) => {
                let mut out = String::from_str("unsupported cargo-mutants capability: ");
                out.append(detail.as_str());
                out
            },
            MutationEngineError::Io(e) => {
                let mut out = String::from_str("io error: ");
                out.append(io_error_text(e).as_str());
                out
            },
        }
    }
}

/// Ghost mirror of [`MutantExecutionResult`].
#[verifier::ext_equal]
pub ghost struct MutantExecutionResultView {
    /// Final outcome.
    pub outcome: MutationOutcomeView,
    /// Process exit code, if known.
    pub exit_code: Option<i32>,
    /// Captured stdout.
    pub stdout: Seq<char>,
    /// Captured stderr.
    pub stderr: Seq<char>,
}

/// Execution result for one mutant, including captured process outputs.
#[derive(Debug, PartialEq, Eq)]
pub struct MutantExecutionResult {
    /// Final outcome of mutant execution.
    pub outcome: MutationOutcome,
    /// Process exit code, if known.
    pub exit_code: Option<i32>,
    /// Captured stdout.
    pub stdout: String,
    /// Captured stderr.
    pub stderr: String,
}

impl View for MutantExecutionResult {
    type V = MutantExecutionResultView;

    open spec fn view(&self) -> MutantExecutionResultView {
        MutantExecutionResultView {
            outcome: self.outcome@,
            exit_code: self.exit_code,
            stdout: self.stdout@,
            stderr: self.stderr@,
        }
    }
}

impl Clone for MutantExecutionResult {
    /// Clones every field; the copy equals the original.
    fn clone(&self) -> (r: Self)
        ensures
            r == *self,
    {
        MutantExecutionResult {
            outcome: self.outcome.clone(),
            exit_code: self.exit_code,
            stdout: self.stdout.clone(),
            stderr: self.stderr.clone(),
        }
    }
}

/// Mutation engine contract.  An engine can list candidate mutants and
/// execute one of them against the test suite; concrete adapters (a
/// subprocess shell-out, an in-memory fake for tests) implement it.
pub trait MutationEngine {
    /// Discover available mutants.
    fn discover_mutants(&self, config: &MutationConfig) -> Result<
        Vec<MutantSpec>,
        MutationEngineError,
    >;

    /// Execute one mutant and return its outcome.
    fn execute_mutant(&self, config: &MutationConfig, mutant: &MutantSpec) -> Result<
        MutantExecutionResult,
        MutationEngineError,
    >;
}

/// The pure core of the `cargo-mutants` command-line adapter: output
/// parsing, id hashing and outcome classification.  The subprocess calls
/// themselves belong to the embedding program.
#[derive(Debug, Clone, Copy, PartialEq, Eq, Structural)]
pub struct CargoMutantsEngine;

impl Default for CargoMutantsEngine {
    /// There is only one value of this type.
    fn default() -> (r: Self)
        ensures
            r == CargoMutantsEngine,
    {
        CargoMutantsEngine
    }
}

/// Does command output contain one of the shell's or cargo's phrasings for
/// an unknown `mutants` subcommand?
pub open spec fn missing_command_spec(output: Seq<u8>) -> bool {
    ||| bytes_contain(output, "no such command: `mutants`"@)
    ||| bytes_contain(output, "No such command: `mutants`"@)
    ||| bytes_contain(output, "unrecognized subcommand 'mutants'"@)
    ||| bytes_contain(output, "unknown subcommand 'mutants'"@)
}

/// The output text says the listing found nothing to test.
pub open spec fn zero_mutants_phrase(t: Seq<char>) -> bool {
    ||| contains_ci(t, "found 0 mutants to test"@)
    ||| contains_ci(t, "no mutants found under the active filters"@)
}

/// The outcome [`CargoMutantsEngine::classify_outcome`] derives from the
/// process status and combined output text.  The keyword precedence is
/// fixed: explicit zero-mutant phrases, then timeout, unviable,
/// survived/missed, killed/caught, and only then the exit status.
pub open spec fn classify_outcome_spec(success: bool, t: Seq<char>) -> MutationOutcomeView {
    if zero_mutants_phrase(t) {
        MutationOutcomeView::Error(trim_spec(t))
    } else if contains_ci(t, "timeout"@) {
        MutationOutcomeView::Timeout
    } else if contains_ci(t, "unviable"@) {
        MutationOutcomeView::Unviable
    } else if contains_ci(t, "survived"@) || contains_ci(t, "missed"@) {
        MutationOutcomeView::Survived
    } else if contains_ci(t, "killed"@) || contains_ci(t, "caught"@) {
        MutationOutcomeView::Killed
    } else if success {
        MutationOutcomeView::Killed
    } else {
        MutationOutcomeView::Error(trim_spec(t))
    }
}

/// A character escaped in a regular-expression literal.
pub open spec fn is_regex_special(c: char) -> bool {
    ||| c == '.'
    ||| c == '+'
    ||| c == '*'
    ||| c == '?'
    ||| c == '^'
    ||| c == '$'
    ||| c == '('
    ||| c == ')'
    ||| c == '['
    ||| c == ']'
    ||| c == '{'
    ||| c == '}'
    ||| c == '|'
    ||| c == '\\'
}

/// The regex-literal escaping of a string: a backslash before every
/// special character.
pub open spec fn escape_regex_spec(s: Seq<char>) -> Seq<char>
    decreases s.len(),
{
    if s.len() == 0 {
        Seq::empty()
    } else {
        escape_regex_spec(s.drop_last()) + if is_regex_special(s.last()) {
            seq!['\\', s.last()]
        } else {
            seq![s.last()]
        }
    }
}

/// The hexadecimal digits of a number, zero-padded on the left to at
/// least four digits.
pub open spec fn hex_pad4(n: nat) -> Seq<char> {
    if n < 16 {
        seq!['0', '0', '0'] + hex_rep(n)
    } else if n < 256 {
        seq!['0', '0'] + hex_rep(n)
    } else if n < 4096 {
        seq!['0'] + hex_rep(n)
    } else {
        hex_rep(n)
    }
}

/// The stable id of a discovered mutant: `m` followed by the zero-padded
/// hexadecimal FNV-1a hash of `<line index>:<line text>`.
pub open spec fn mutant_id_spec(index: nat, line_bytes: Seq<u8>) -> Seq<char> {
    seq!['m'] + hex_pad4(fnv1a_spec(dec_bytes_rep(index) + seq![58u8] + line_bytes) as nat)
}

/// What `parse_label` extracts from a listing line shaped like
/// `file:line:col: description`: the source file, the line number, and
/// the description (or the whole label where the shape does not fit).
pub open spec fn parse_label_spec(l: Seq<char>) -> (Seq<char>, u32, Seq<char>) {
    let p1 = find_char_spec(l, ':', 0);
    if p1 == l.len() {
        (Seq::empty(), 0u32, l)
    } else {
        let p2 = find_char_spec(l, ':', p1 + 1);
        let line_no = parse_u32_or_zero(l.subrange(p1 + 1, p2));
        if p2 == l.len() {
            (l.take(p1), line_no, l)
        } else {
            let p3 = find_char_spec(l, ':', p2 + 1);
            if p3 == l.len() {
                (l.take(p1), line_no, l)
            } else {
                (l.take(p1), line_no, trim_spec(l.subrange(p3 + 1, l.len() as int)))
            }
        }
    }
}

/// The mutant described by one trimmed listing line, at the given line
/// index.
pub open spec fn listed_mutant_view(index: nat, line: Seq<char>) -> MutantSpecView {
    MutantSpecView {
        id: mutant_id_spec(index, vstd::utf8::encode_utf8(line)),
        label: line,
        selector: line,
        source_file: parse_label_spec(line).0,
        source_line: parse_label_spec(line).1,
        mutation_type: parse_mutation_type_spec(line),
        original_code: Seq::empty(),
        mutated_code: parse_label_spec(line).2,
    }
}

/// The mutants listed on the given lines, starting at the given line
/// index: blank lines and `Found `/`Listing ` banners are skipped, every
/// other line describes one mutant.
pub open spec fn mutants_from_lines(ls: Seq<Seq<char>>, index: nat) -> Seq<MutantSpecView>
    decreases ls.len(),
{
    if ls.len() == 0 {
        Seq::empty()
    } else {
        let line = trim_spec(ls[0]);
        let rest = mutants_from_lines(ls.drop_first(), index + 1);
        if line.len() == 0 || "Found "@.is_prefix_of(line) || "Listing "@.is_prefix_of(line) {
            rest
        } else {
            seq![listed_mutant_view(index, line)] + rest
        }
    }
}

/// The mutants described by the listing output as a whole.
pub open spec fn mutant_list_spec(stdout: Seq<char>) -> Seq<MutantSpecView> {
    mutants_from_lines(split_lines_from(stdout, 0), 0)
}

/// A pushed vector without its new last element.
spec fn old_push_prefix(v: Seq<MutantSpec>) -> Seq<MutantSpec> {
    v.drop_last()
}

/// What `str::parse::<u32>` followed by `unwrap_or(0)` yields.
pub open spec fn parse_u32_or_zero(s: Seq<char>) -> u32 {
    match parse_uint_spec(s) {
        Some(v) => if v <= u32::MAX {
            v as u32
        } else {
            0u32
        },
        None => 0u32,
    }
}

impl CargoMutantsEngine {
    /// Does command output report that the `mutants` subcommand is
    /// unknown?
    pub fn command_output_missing_command(output: &[u8]) -> (r: bool)
        ensures
            r == missing_command_spec(output@),
    {
        bytes_contain_pattern(output, "no such command: `mutants`") || bytes_contain_pattern(
            output,
            "No such command: `mutants`",
        ) || bytes_contain_pattern(output, "unrecognized subcommand 'mutants'")
            || bytes_contain_pattern(output, "unknown subcommand 'mutants'")
    }

    /// The 64-bit FNV-1a hash of the input's UTF-8 bytes.
    pub fn stable_hash(input: &str) -> (h: u64)
        ensures
            h == fnv1a_spec(input.spec_bytes()),
    {
        fnv1a(input.as_bytes())
    }

    /// The stable id of the mutant described by the listing line at the
    /// given index.
    pub fn mutant_id(index: usize, line: &str) -> (id: String)
        ensures
            id@ == mutant_id_spec(index as nat, line.spec_bytes()),
    {
        let mut bytes: Vec<u8> = Vec::new();
        push_dec_bytes(&mut bytes, index as u64);
        bytes.push(58);
        let line_bytes = line.as_bytes();
        let n = line_bytes.len();
        let mut i: usize = 0;
        proof {
            assert(bytes@ + line.spec_bytes().take(0) =~= bytes@);
        }
        let ghost head = bytes@;
        while i < n
            invariant
                n == line.spec_bytes().len(),
                i <= n,
                line_bytes@ == line.spec_bytes(),
                bytes@ == head + line.spec_bytes().take(i as int),
            decreases n - i,
        {
            bytes.push(line_bytes[i]);
            proof {
                assert(bytes@ =~= head + line.spec_bytes().take(i + 1));
            }
            i += 1;
        }
        proof {
            assert(head + line.spec_bytes().take(n as int) =~= dec_bytes_rep(index as nat) + seq![
                58u8,
            ] + line.spec_bytes());
        }
        let h = fnv1a(bytes.as_slice());
        let mut id = String::new();
        proof {
            reveal_strlit("m");
            reveal_strlit("0");
            reveal_strlit("00");
            reveal_strlit("000");
        }
        id.append("m");
        if h < 16 {
            id.append("000");
        } else if h < 256 {
            id.append("00");
        } else if h < 4096 {
            id.append("0");
        }
        push_hex_u64(&mut id, h);
        proof {
            assert(id@ =~= mutant_id_spec(index as nat, line.spec_bytes()));
        }
        id
    }

    /// Classifies the combined output text of one mutant execution, with
    /// the exit status as the last resort.
    pub fn classify_outcome(success: bool, text: &str) -> (r: MutationOutcome)
        ensures
            r@ == classify_outcome_spec(success, text@),
    {
        let chars = chars_vec(text);
        if text_contains_ci(&chars, "found 0 mutants to test") || text_contains_ci(
            &chars,
            "no mutants found under the active filters",
        ) {
            return MutationOutcome::Error { message: trim(text) };
        }
        if text_contains_ci(&chars, "timeout") {
            return MutationOutcome::Timeout;
        }
        if text_contains_ci(&chars, "unviable") {
            return MutationOutcome::Unviable;
        }
        if text_contains_ci(&chars, "survived") || text_contains_ci(&chars, "missed") {
            return MutationOutcome::Survived;
        }
        if text_contains_ci(&chars, "killed") || text_contains_ci(&chars, "caught") {
            return MutationOutcome::Killed;
        }
        if success {
            MutationOutcome::Killed
        } else {
            MutationOutcome::Error { message: trim(text) }
        }
    }

    /// Splits a listing label of the shape `file:line:col: description`
    /// into source file, source line, and description; a label of another
    /// shape keeps itself as the description.
    pub fn parse_label(label: &str) -> (r: (String, u32, String))
        ensures
            (r.0@, r.1, r.2@) == parse_label_spec(label@),
    {
        let v = chars_vec(label);
        let n = v.len();
        let p1 = find_char(&v, ':', 0);
        if p1 == n {
            return (String::new(), 0, label.to_owned());
        }
        let p2 = find_char(&v, ':', p1 + 1);
        let line_no = match parse_u64_span(&v, p1 + 1, p2) {
            Some(value) => if value <= u32::MAX as u64 {
                value as u32
            } else {
                0
            },
            None => 0,
        };
        if p2 == n {
            return (label.substring_char(0, p1).to_owned(), line_no, label.to_owned());
        }
        let p3 = find_char(&v, ':', p2 + 1);
        if p3 == n {
            return (label.substring_char(0, p1).to_owned(), line_no, label.to_owned());
        }
        let desc = trim(label.substring_char(p3 + 1, n));
        proof {
            assert(label@.subrange(0, p1 as int) =~= label@.take(p1 as int));
        }
        (label.substring_char(0, p1).to_owned(), line_no, desc)
    }

    /// Escapes a string for use as a regular-expression literal.
    pub fn escape_regex_literal(input: &str) -> (r: String)
        ensures
            r@ == escape_regex_spec(input@),
    {
        let n = input.unicode_len();
        let mut out = String::new();
        proof {
            assert(out@ =~= escape_regex_spec(input@.take(0)));
            reveal_strlit("\\");
        }
        let mut i: usize = 0;
        while i < n
            invariant
                n == input@.len(),
                i <= n,
                out@ == escape_regex_spec(input@.take(i as int)),
                "\\"@ == seq!['\\'],
            decreases n - i,
        {
            let c = input.get_char(i);
            let special = c == '.' || c == '+' || c == '*' || c == '?' || c == '^' || c == '$' || c
                == '(' || c == ')' || c == '[' || c == ']' || c == '{' || c == '}' || c == '|' || c
                == '\\';
            if special {
                out.append("\\");
            }
            let piece = input.substring_char(i, i + 1);
            out.append(piece);
            proof {
                assert(input@.take(i + 1).drop_last() =~= input@.take(i as int));
                assert(input@.take(i + 1).last() == c);
                assert(input@.subrange(i as int, i + 1) =~= seq![c]);
                assert(out@ =~= escape_regex_spec(input@.take(i + 1)));
            }
            i += 1;
        }
        proof {
            assert(input@.take(n as int) =~= input@);
        }
        out
    }

    /// Parses the output of the external tool's listing mode: each
    /// non-blank, non-banner line becomes one mutant with a stable hashed
    /// id.  Fails when no usable mutant was listed.
    pub fn parse_mutant_list(stdout: &str) -> (r: Result<Vec<MutantSpec>, MutationEngineError>)
        ensures
            mutant_list_spec(stdout@).len() > 0 ==> (r matches Ok(v) && specs_view(v@)
                == mutant_list_spec(stdout@)),
            mutant_list_spec(stdout@).len() == 0 ==> (r matches Err(
                MutationEngineError::CommandFailed(m),
            ) && m@ == "`cargo mutants --list` returned no mutants"@),
    {
        let lines = split_lines(stdout);
        let ghost lsv = lines@.map_values(|x: String| x@);
        let n = lines.len();
        let mut out: Vec<MutantSpec> = Vec::new();
        proof {
            assert(specs_view(out@) =~= Seq::<MutantSpecView>::empty());
            assert(lsv.skip(0) =~= lsv);
            assert(specs_view(out@) + mutants_from_lines(lsv.skip(0), 0) =~= mutant_list_spec(
                stdout@,
            ));
        }
        let mut i: usize = 0;
        while i < n
            invariant
                n == lines@.len(),
                lsv == lines@.map_values(|x: String| x@),
                i <= n,
                mutant_list_spec(stdout@) == specs_view(out@) + mutants_from_lines(
                    lsv.skip(i as int),
                    i as nat,
                ),
            decreases n - i,
        {
            proof {
                assert(lsv.skip(i as int)[0] == lsv[i as int]);
                assert(lsv.skip(i as int).drop_first() =~= lsv.skip(i + 1));
            }
            let trimmed = trim(lines[i].as_str());
            let skip_line = trimmed.as_str().is_empty() || {
                let tv = chars_vec(trimmed.as_str());
                starts_with_pattern(&tv, "Found ") || starts_with_pattern(&tv, "Listing ")
            };
            if !skip_line {
                let (source_file, source_line, mutation_desc) = Self::parse_label(
                    trimmed.as_str(),
                );
                let mutation_type = parse_mutation_type(trimmed.as_str());
                let id = Self::mutant_id(i, trimmed.as_str());
                let spec = MutantSpec {
                    id,
                    label: trimmed.clone(),
                    selector: trimmed.clone(),
                    source_file,
                    source_line,
                    mutation_type,
                    original_code: String::new(),
                    mutated_code: mutation_desc,
                };
                proof {
                    assert(spec@ =~= listed_mutant_view(i as nat, trim_spec(lsv[i as int])));
                }
                out.push(spec);
                proof {
                    assert(specs_view(out@) =~= specs_view(old_push_prefix(out@)).push(
                        out@.last()@,
                    ));
                    assert(mutant_list_spec(stdout@) =~= specs_view(out@) + mutants_from_lines(
                        lsv.skip(i + 1),
                        (i + 1) as nat,
                    ));
                }
            } else {
                proof {
                    assert(mutant_list_spec(stdout@) =~= specs_view(out@) + mutants_from_lines(
                        lsv.skip(i + 1),
                        (i + 1) as nat,
                    ));
                }
            }
            i += 1;
        }
        proof {
            assert(lsv.skip(n as int) =~= Seq::<Seq<char>>::empty());
            assert(mutant_list_spec(stdout@) =~= specs_view(out@));
        }
        if out.is_empty() {
            return Err(
                MutationEngineError::CommandFailed(
                    String::from_str("`cargo mutants --list` returned no mutants"),
                ),
            );
        }
        Ok(out)
    }

    /// Builds the anchored regular expression that selects exactly the
    /// given label.
    pub fn build_label_selector(label: &str) -> (r: String)
        ensures
            r@ == seq!['^'] + escape_regex_spec(label@) + seq!['$'],
    {
        proof {
            reveal_strlit("^");
            reveal_strlit("$");
        }
        let mut out = String::from_str("^");
        let escaped = Self::escape_regex_literal(label);
        out.append(escaped.as_str());
        out.append("$");
        proof {
            assert(out@ =~= seq!['^'] + escape_regex_spec(label@) + seq!['$']);
        }
        out
    }
}

} // verus!
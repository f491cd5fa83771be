use kitchensink_testing::mutation::engine::CargoMutantsEngine;
use kitchensink_testing::mutation::engine::MutationEngineError;
use kitchensink_testing::mutation::events::MutationOutcome;
use kitchensink_testing::mutation::events::MutationType;
use kitchensink_testing::mutation::events::parse_mutation_type;
use kitchensink_testing::mutation::events::truncate_preview;

#[test]
fn stable_hash_is_deterministic() {
    let a = CargoMutantsEngine::stable_hash("same-input");
    let b = CargoMutantsEngine::stable_hash("same-input");
    let c = CargoMutantsEngine::stable_hash("other-input");
    assert_eq!(a, b);
    assert_ne!(a, c);
}

#[test]
fn stable_hash_matches_reference_fnv1a() {
    // FNV-1a 64-bit computed by hand for cross-checking.
    let mut expected: u64 = 0xcbf29ce484222325;
    for byte in "abc".as_bytes() {
        expected ^= u64::from(*byte);
        expected = expected.wrapping_mul(0x100000001b3);
    }
    assert_eq!(CargoMutantsEngine::stable_hash("abc"), expected);
}

#[test]
fn classify_outcome_uses_keyword_precedence() {
    assert_eq!(
        CargoMutantsEngine::classify_outcome(true, "mutant survived"),
        MutationOutcome::Survived
    );
    assert_eq!(
        CargoMutantsEngine::classify_outcome(true, "mutant killed"),
        MutationOutcome::Killed
    );
    assert_eq!(
        CargoMutantsEngine::classify_outcome(true, "timeout while running"),
        MutationOutcome::Timeout
    );
    assert_eq!(
        CargoMutantsEngine::classify_outcome(true, "unviable mutation"),
        MutationOutcome::Unviable
    );
    // "timeout" wins over "survived"/"killed" wherever both occur.
    assert_eq!(
        CargoMutantsEngine::classify_outcome(true, "survived after timeout killed"),
        MutationOutcome::Timeout
    );

    match CargoMutantsEngine::classify_outcome(true, "Found 0 mutants to test") {
        MutationOutcome::Error { message } => {
            assert!(message.contains("Found 0 mutants to test"));
        }
        other => panic!("expected error outcome, got {other:?}"),
    }

    match CargoMutantsEngine::classify_outcome(true, "WARN No mutants found under the active filters")
    {
        MutationOutcome::Error { message } => {
            assert!(message.contains("No mutants found under the active filters"));
        }
        other => panic!("expected error outcome, got {other:?}"),
    }

    match CargoMutantsEngine::classify_outcome(false, "unknown failure") {
        MutationOutcome::Error { message } => assert_eq!(message, "unknown failure"),
        other => panic!("expected error outcome, got {other:?}"),
    }

    // A nonzero exit with no recognizable keyword keeps the raw text,
    // trimmed.
    match CargoMutantsEngine::classify_outcome(false, "  strange output \n") {
        MutationOutcome::Error { message } => assert_eq!(message, "strange output"),
        other => panic!("expected error outcome, got {other:?}"),
    }

    // A clean exit with no keyword counts as killed.
    assert_eq!(
        CargoMutantsEngine::classify_outcome(true, "nothing recognizable"),
        MutationOutcome::Killed
    );
}

#[test]
fn build_label_selector_escapes_regex_specials() {
    assert_eq!(
        CargoMutantsEngine::build_label_selector("src/scenario.rs:139:41: replace > with >="),
        r"^src/scenario\.rs:139:41: replace > with >=$"
    );
}

#[test]
fn parse_label_splits_file_line_and_description() {
    let (file, line, desc) =
        CargoMutantsEngine::parse_label("src/lib.rs:42:5: replace + with *");
    assert_eq!(file, "src/lib.rs");
    assert_eq!(line, 42);
    assert_eq!(desc, "replace + with *");

    let (file, line, desc) = CargoMutantsEngine::parse_label("src/lib.rs:7");
    assert_eq!(file, "src/lib.rs");
    assert_eq!(line, 7);
    assert_eq!(desc, "src/lib.rs:7");

    let (file, line, desc) = CargoMutantsEngine::parse_label("no colons here");
    assert_eq!(file, "");
    assert_eq!(line, 0);
    assert_eq!(desc, "no colons here");
}

#[test]
fn parse_mutant_list_skips_banners_and_blank_lines() {
    let stdout = "Found 2 mutants to test\nadd\n\nsub\nListing done\n";
    let mutants = CargoMutantsEngine::parse_mutant_list(stdout).expect("list should parse");
    assert_eq!(mutants.len(), 2);
    assert_eq!(mutants[0].label, "add");
    assert_eq!(mutants[0].selector, "add");
    assert_eq!(mutants[1].label, "sub");
    assert!(mutants[0].id.starts_with('m'));
    assert!(mutants[1].id.starts_with('m'));
    assert_ne!(mutants[0].id, mutants[1].id);

    // The same listing hashes to the same ids on every parse.
    let again = CargoMutantsEngine::parse_mutant_list(stdout).expect("list should parse");
    assert_eq!(mutants[0].id, again[0].id);
    assert_eq!(mutants[1].id, again[1].id);
}

#[test]
fn parse_mutant_list_rejects_empty_listing() {
    match CargoMutantsEngine::parse_mutant_list("Found 0 mutants to test\n") {
        Err(MutationEngineError::CommandFailed(message)) => {
            assert_eq!(message, "`cargo mutants --list` returned no mutants");
        }
        other => panic!("expected command failure, got {other:?}"),
    }
}

#[test]
fn command_output_missing_command_matches_known_phrasings() {
    assert!(CargoMutantsEngine::command_output_missing_command(
        b"error: no such command: `mutants`"
    ));
    assert!(CargoMutantsEngine::command_output_missing_command(
        b"error: unrecognized subcommand 'mutants'"
    ));
    assert!(!CargoMutantsEngine::command_output_missing_command(
        b"error: something else entirely"
    ));
}

#[test]
fn parse_mutation_type_classifies_by_keywords() {
    assert_eq!(
        parse_mutation_type("replace + with -"),
        MutationType::Arithmetic
    );
    // A comparison classification needs an arithmetic character in the
    // label too; without one, the `!` of `!=` reads as a logical change.
    assert_eq!(
        parse_mutation_type("replace a * b == c with a * b != c"),
        MutationType::Comparison
    );
    assert_eq!(
        parse_mutation_type("replace == with !="),
        MutationType::Logical
    );
    assert_eq!(
        parse_mutation_type("replace && with ||"),
        MutationType::Logical
    );
    assert_eq!(
        parse_mutation_type("replace true with false"),
        MutationType::Boolean
    );
    assert_eq!(
        parse_mutation_type("delete return statement"),
        MutationType::ReturnValue
    );
    assert_eq!(parse_mutation_type("remove method body"), MutationType::MethodCall);
    assert_eq!(parse_mutation_type("totally opaque"), MutationType::Unknown);
}

#[test]
fn truncate_preview_keeps_short_output_and_marks_long_output() {
    assert_eq!(truncate_preview("short"), "short");
    let long = "x".repeat(5000);
    let preview = truncate_preview(&long);
    assert_eq!(preview.len(), 4096);
    assert!(preview.ends_with("..."));
}

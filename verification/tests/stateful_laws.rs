use kitchensink_testing::numeric::assert_bounded;
use kitchensink_testing::stateful::assert_idempotent;
use kitchensink_testing::stateful::assert_involutive;
use kitchensink_testing::stateful::assert_state_invariant;
use kitchensink_testing::stateful::assert_valid_state_sequence;
use kitchensink_testing::stateful::assert_valid_state_transition;

#[derive(Debug, PartialEq, Clone)]
enum TestState {
    Start,
    Middle,
    End,
}

#[derive(Debug)]
enum TestEvent {
    Next,
    Finish,
}

fn is_valid_transition(from: &TestState, event: &TestEvent, to: &TestState) -> bool {
    matches!(
        (from, event, to),
        (TestState::Start, TestEvent::Next, TestState::Middle)
            | (TestState::Middle, TestEvent::Finish, TestState::End)
    )
}

#[test]
fn test_valid_state_transition() {
    assert_valid_state_transition(
        &TestState::Start,
        &TestEvent::Next,
        &TestState::Middle,
        is_valid_transition,
    );
}

#[test]
fn test_idempotent_abs() {
    assert_idempotent(-5, |x: i32| x.abs());
}

#[test]
fn test_involutive_negation() {
    assert_involutive(5, |x: i32| -x);
}

#[test]
fn test_involutive_not() {
    assert_involutive(true, |x: bool| !x);
}

#[derive(Debug)]
struct TestOrderState {
    filled: f64,
    total: f64,
}

fn is_valid_order_state(state: &TestOrderState) -> bool {
    state.filled >= 0.0 && state.filled <= state.total
}

#[test]
fn test_state_invariant() {
    let state = TestOrderState {
        filled: 50.0,
        total: 100.0,
    };
    assert_state_invariant(&state, is_valid_order_state);
}

fn is_valid_seq_transition(from: &TestState, to: &TestState) -> bool {
    matches!(
        (from, to),
        (TestState::Start, TestState::Middle) | (TestState::Middle, TestState::End)
    )
}

#[test]
fn test_valid_state_sequence() {
    let states = vec![TestState::Start, TestState::Middle, TestState::End];
    assert_valid_state_sequence(&states, is_valid_seq_transition);
}

#[test]
fn test_bounded_success() {
    assert_bounded(5, 0, 10);
    assert_bounded(0.0, 0.0, 1.0);
}

#[test]
fn law_module_stateful_variants_agree() {
    kitchensink_testing::law::stateful::assert_idempotent(-5, |x: i32| x.abs());
    kitchensink_testing::law::stateful::assert_involutive(7, |x: i32| -x);
    kitchensink_testing::law::stateful::assert_state_invariant(&3_i32, |x: &i32| *x > 0);
    let states = vec![TestState::Start, TestState::Middle, TestState::End];
    kitchensink_testing::law::stateful::assert_valid_state_sequence(
        &states,
        is_valid_seq_transition,
    );
    kitchensink_testing::law::stateful::assert_valid_state_transition(
        &TestState::Start,
        &TestEvent::Next,
        &TestState::Middle,
        is_valid_transition,
    );
}

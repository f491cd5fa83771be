//! Stateful/system law assertions.
//!
//! Each assertion's precondition states the law it checks, so a verified
//! caller can only use an assertion on inputs for which the check succeeds.

use vstd::prelude::*;

verus! {

/// Checks one transition under the given validity predicate.
pub fn assert_valid_state_transition<S, E, F>(
    initial: &S,
    event: &E,
    final_state: &S,
    is_valid_transition: F,
) where S: core::fmt::Debug, E: core::fmt::Debug, F: Fn(&S, &E, &S) -> bool
    requires
        is_valid_transition.requires((initial, event, final_state)),
        forall|r: bool| is_valid_transition.ensures((initial, event, final_state), r) ==> r,
{
    let valid = is_valid_transition(initial, event, final_state);
    assert(valid);
}

/// Checks idempotence: `f(f(x)) == f(x)`.
pub fn assert_idempotent<T, F>(value: T, f: F) where
    T: Copy + PartialEq + core::fmt::Debug,
    F: Fn(T) -> T,

    requires
        f.requires((value,)),
        forall|once: T| f.ensures((value,), once) ==> f.requires((once,)),
        forall|once: T, twice: T|
            f.ensures((value,), once) && f.ensures((once,), twice) ==> once == twice,
{
    let once = f(value);
    let twice = f(once);
    assert(once == twice);
}

/// Checks involution: `f(f(x)) == x`.
pub fn assert_involutive<T, F>(value: T, f: F) where
    T: Copy + PartialEq + core::fmt::Debug,
    F: Fn(T) -> T,

    requires
        f.requires((value,)),
        forall|once: T| f.ensures((value,), once) ==> f.requires((once,)),
        forall|once: T, twice: T|
            f.ensures((value,), once) && f.ensures((once,), twice) ==> twice == value,
{
    let twice = f(f(value));
    assert(twice == value);
}

/// Checks a state invariant.
pub fn assert_state_invariant<S, F>(state: &S, is_valid: F) where
    S: core::fmt::Debug,
    F: Fn(&S) -> bool,

    requires
        is_valid.requires((state,)),
        forall|r: bool| is_valid.ensures((state,), r) ==> r,
{
    let valid = is_valid(state);
    assert(valid);
}

/// Checks that all adjacent transitions in a sequence are valid.
pub fn assert_valid_state_sequence<S, F>(states: &[S], is_valid_transition: F) where
    S: core::fmt::Debug,
    F: Fn(&S, &S) -> bool,

    requires
        forall|i: int|
            0 <= i < states@.len() - 1 ==> #[trigger] is_valid_transition.requires(
                (&states@[i], &states@[i + 1]),
            ),
        forall|i: int, r: bool|
            0 <= i < states@.len() - 1 && #[trigger] is_valid_transition.ensures(
                (&states@[i], &states@[i + 1]),
                r,
            ) ==> r,
{
    let n = states.len();
    if n == 0 {
        return ;
    }
    let mut i: usize = 0;
    while i < n - 1
        invariant
            n == states@.len(),
            1 <= n,
            i <= n - 1,
            forall|k: int|
                0 <= k < states@.len() - 1 ==> #[trigger] is_valid_transition.requires(
                    (&states@[k], &states@[k + 1]),
                ),
            forall|k: int, r: bool|
                0 <= k < states@.len() - 1 && #[trigger] is_valid_transition.ensures(
                    (&states@[k], &states@[k + 1]),
                    r,
                ) ==> r,
        decreases n - i,
    {
        let valid = is_valid_transition(&states[i], &states[i + 1]);
        assert(valid);
        i += 1;
    }
}

} // verus!

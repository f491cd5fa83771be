//! Cross-cutting invariant assertions.
//!
//! Each assertion's precondition states the invariant it checks, so a
//! verified caller can only use an assertion on values for which the check
//! succeeds.

use vstd::prelude::*;
use vstd::std_specs::cmp::PartialOrdSpec;

verus! {

/// Checks that a sequence is strictly increasing.
pub fn assert_monotonic_increasing<T>(values: &[T]) where T: PartialOrd + core::fmt::Debug
    requires
        T::obeys_partial_cmp_spec(),
        forall|i: int|
            0 <= i < values@.len() - 1 ==> (#[trigger] values@[i + 1].partial_cmp_spec(
                &values@[i],
            )) matches Some(core::cmp::Ordering::Greater),
{
    let n = values.len();
    if n == 0 {
        return ;
    }
    let mut i: usize = 0;
    while i < n - 1
        invariant
            n == values@.len(),
            1 <= n,
            i <= n - 1,
            T::obeys_partial_cmp_spec(),
            forall|k: int|
                0 <= k < values@.len() - 1 ==> (#[trigger] values@[k + 1].partial_cmp_spec(
                    &values@[k],
                )) matches Some(core::cmp::Ordering::Greater),
        decreases n - i,
    {
        let increased = values[i + 1].gt(&values[i]);
        assert(increased);
        i += 1;
    }
}

/// Checks that every value lies inside the inclusive range `[min, max]`.
pub fn assert_all_in_range<T>(values: &[T], min: T, max: T) where
    T: PartialOrd + core::fmt::Debug + Copy,

    requires
        T::obeys_partial_cmp_spec(),
        forall|i: int|
            0 <= i < values@.len() ==> (#[trigger] values@[i].partial_cmp_spec(&min)) matches Some(
                core::cmp::Ordering::Greater
                | core::cmp::Ordering::Equal,
            ),
        forall|i: int|
            0 <= i < values@.len() ==> (#[trigger] values@[i].partial_cmp_spec(&max)) matches Some(
                core::cmp::Ordering::Less
                | core::cmp::Ordering::Equal,
            ),
{
    let n = values.len();
    let mut i: usize = 0;
    while i < n
        invariant
            n == values@.len(),
            i <= n,
            T::obeys_partial_cmp_spec(),
            forall|k: int|
                0 <= k < values@.len() ==> (#[trigger] values@[k].partial_cmp_spec(
                    &min,
                )) matches Some(core::cmp::Ordering::Greater | core::cmp::Ordering::Equal),
            forall|k: int|
                0 <= k < values@.len() ==> (#[trigger] values@[k].partial_cmp_spec(
                    &max,
                )) matches Some(core::cmp::Ordering::Less | core::cmp::Ordering::Equal),
        decreases n - i,
    {
        let above_min = values[i].ge(&min);
        let below_max = values[i].le(&max);
        assert(above_min && below_max);
        i += 1;
    }
}

} // verus!

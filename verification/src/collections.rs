//! Collection property templates.
//!
//! Reusable templates for checking collection properties like size
//! preservation, uniqueness, and ordering.  Each template's precondition
//! states the property it checks, so a verified caller can only use a
//! template on collections for which the check succeeds.

use vstd::prelude::*;
use vstd::std_specs::cmp::PartialEqSpec;
use vstd::std_specs::cmp::PartialOrdSpec;

verus! {

/// Checks that a transformation preserved the collection size.
pub fn assert_size_preserved<T, U>(input: &[T], output: &[U])
    requires
        input@.len() == output@.len(),
{
    let a = input.len();
    let b = output.len();
    assert(a == b);
}

/// Checks that a collection contains no duplicate elements.
pub fn assert_no_duplicates<T>(values: &[T]) where
    T: Eq + core::hash::Hash + core::fmt::Debug,

    requires
        T::obeys_eq_spec(),
        forall|i: int, j: int|
            0 <= i < j < values@.len() ==> !(#[trigger] values@[i].eq_spec(&values@[j])),
{
    let n = values.len();
    let mut i: usize = 0;
    while i < n
        invariant
            n == values@.len(),
            i <= n,
            T::obeys_eq_spec(),
            forall|k: int, l: int|
                0 <= k < l < values@.len() ==> !(#[trigger] values@[k].eq_spec(&values@[l])),
        decreases n - i,
    {
        let mut j: usize = i + 1;
        while j < n
            invariant
                n == values@.len(),
                i < j <= n || (i + 1 == j && j > n),
                i < n,
                T::obeys_eq_spec(),
                forall|k: int, l: int|
                    0 <= k < l < values@.len() ==> !(#[trigger] values@[k].eq_spec(&values@[l])),
            decreases n - j,
        {
            let same = values[i].eq(&values[j]);
            assert(!same);
            j += 1;
        }
        i += 1;
    }
}

/// Checks that a collection is sorted in ascending order.
pub fn assert_sorted<T>(values: &[T]) where T: Ord + core::fmt::Debug
    requires
        T::obeys_partial_cmp_spec(),
        forall|i: int|
            0 <= i < values@.len() - 1 ==> (#[trigger] values@[i].partial_cmp_spec(
                &values@[i + 1],
            )) matches Some(core::cmp::Ordering::Less | core::cmp::Ordering::Equal),
{
    let n = values.len();
    if n == 0 {
        return ;
    }
    let mut i: usize = 0;
    while i < n - 1
        invariant
            n == values@.len(),
            1 <= n,
            i <= n - 1,
            T::obeys_partial_cmp_spec(),
            forall|k: int|
                0 <= k < values@.len() - 1 ==> (#[trigger] values@[k].partial_cmp_spec(
                    &values@[k + 1],
                )) matches Some(core::cmp::Ordering::Less | core::cmp::Ordering::Equal),
        decreases n - i,
    {
        let in_order = values[i].le(&values[i + 1]);
        assert(in_order);
        i += 1;
    }
}

/// Checks that a collection is sorted in descending order.
pub fn assert_sorted_descending<T>(values: &[T]) where T: Ord + core::fmt::Debug
    requires
        T::obeys_partial_cmp_spec(),
        forall|i: int|
            0 <= i < values@.len() - 1 ==> (#[trigger] values@[i].partial_cmp_spec(
                &values@[i + 1],
            )) matches Some(core::cmp::Ordering::Greater | core::cmp::Ordering::Equal),
{
    let n = values.len();
    if n == 0 {
        return ;
    }
    let mut i: usize = 0;
    while i < n - 1
        invariant
            n == values@.len(),
            1 <= n,
            i <= n - 1,
            T::obeys_partial_cmp_spec(),
            forall|k: int|
                0 <= k < values@.len() - 1 ==> (#[trigger] values@[k].partial_cmp_spec(
                    &values@[k + 1],
                )) matches Some(core::cmp::Ordering::Greater | core::cmp::Ordering::Equal),
        decreases n - i,
    {
        let in_order = values[i].ge(&values[i + 1]);
        assert(in_order);
        i += 1;
    }
}

/// Checks that two collections hold the same set of elements, order and
/// multiplicity aside.
pub fn assert_same_elements<T>(a: &[T], b: &[T]) where
    T: Eq + core::hash::Hash + core::fmt::Debug,

    requires
        a@.to_set() == b@.to_set(),
{
    assert(a@.to_set() =~= b@.to_set());
}

/// Checks that every element of a collection satisfies a predicate.
pub fn assert_all_satisfy<T, F>(values: &[T], predicate: F) where
    T: core::fmt::Debug,
    F: Fn(&T) -> bool,

    requires
        forall|i: int| 0 <= i < values@.len() ==> #[trigger] predicate.requires((&values@[i],)),
        forall|i: int, r: bool|
            0 <= i < values@.len() && #[trigger] predicate.ensures((&values@[i],), r) ==> r,
{
    let n = values.len();
    let mut i: usize = 0;
    while i < n
        invariant
            n == values@.len(),
            forall|k: int| 0 <= k < values@.len() ==> #[trigger] predicate.requires(
                (&values@[k],),
            ),
            forall|k: int, r: bool|
                0 <= k < values@.len() && #[trigger] predicate.ensures((&values@[k],), r) ==> r,
        decreases n - i,
    {
        let holds = predicate(&values[i]);
        assert(holds);
        i += 1;
    }
}

} // verus!

//! Numeric property helpers.
//!
//! Assertions for numeric properties such as bounds.  The precondition of
//! each helper states the property it checks, so a verified caller can only
//! use a helper on values for which the check succeeds.

use vstd::prelude::*;
use vstd::std_specs::cmp::PartialOrdSpec;

verus! {

/// Checks that a value lies within the inclusive bounds `[min, max]`.
pub fn assert_bounded<T>(value: T, min: T, max: T) where T: PartialOrd + core::fmt::Debug
    requires
        T::obeys_partial_cmp_spec(),
        value.partial_cmp_spec(&min) matches Some(
            core::cmp::Ordering::Greater
            | core::cmp::Ordering::Equal,
        ),
        value.partial_cmp_spec(&max) matches Some(
            core::cmp::Ordering::Less
            | core::cmp::Ordering::Equal,
        ),
{
    let above_min = value.ge(&min);
    let below_max = value.le(&max);
    assert(above_min && below_max);
}

} // verus!

//! Timestamp sequence assertions.
//!
//! Checks over millisecond timestamps: monotonicity, gap bounds, and
//! range membership.  Each assertion's precondition states the property
//! it checks, so a verified caller can only use an assertion on
//! timestamp sequences for which the check succeeds.

use vstd::prelude::*;

verus! {

/// Checks that timestamps are strictly increasing.
pub fn assert_monotonic(timestamps: &[i64])
    requires
        forall|i: int|
            0 <= i < timestamps@.len() - 1 ==> #[trigger] timestamps@[i] < timestamps@[i + 1],
{
    let n = timestamps.len();
    if n == 0 {
        return ;
    }
    let mut i: usize = 0;
    while i < n - 1
        invariant
            n == timestamps@.len(),
            1 <= n,
            i <= n - 1,
            forall|k: int|
                0 <= k < timestamps@.len() - 1 ==> #[trigger] timestamps@[k] < timestamps@[k + 1],
        decreases n - i,
    {
        let increased = timestamps[i + 1] > timestamps[i];
        assert(increased);
        i += 1;
    }
}

/// Checks that no gap between consecutive timestamps exceeds `max_gap`.
pub fn assert_no_large_gaps(timestamps: &[i64], max_gap: i64)
    requires
        forall|i: int|
            0 <= i < timestamps@.len() - 1 ==> i64::MIN <= #[trigger] (timestamps@[i + 1]
                - timestamps@[i]) <= i64::MAX,
        forall|i: int|
            0 <= i < timestamps@.len() - 1 ==> #[trigger] (timestamps@[i + 1] - timestamps@[i])
                <= max_gap,
{
    let n = timestamps.len();
    if n == 0 {
        return ;
    }
    let mut i: usize = 0;
    while i < n - 1
        invariant
            n == timestamps@.len(),
            1 <= n,
            i <= n - 1,
            forall|k: int|
                0 <= k < timestamps@.len() - 1 ==> i64::MIN <= #[trigger] (timestamps@[k + 1]
                    - timestamps@[k]) <= i64::MAX,
            forall|k: int|
                0 <= k < timestamps@.len() - 1 ==> #[trigger] (timestamps@[k + 1]
                    - timestamps@[k]) <= max_gap,
        decreases n - i,
    {
        let gap = timestamps[i + 1] - timestamps[i];
        assert(gap <= max_gap);
        i += 1;
    }
}

/// Checks that every gap between consecutive timestamps is at least
/// `min_gap`.
pub fn assert_min_gaps(timestamps: &[i64], min_gap: i64)
    requires
        forall|i: int|
            0 <= i < timestamps@.len() - 1 ==> i64::MIN <= #[trigger] (timestamps@[i + 1]
                - timestamps@[i]) <= i64::MAX,
        forall|i: int|
            0 <= i < timestamps@.len() - 1 ==> #[trigger] (timestamps@[i + 1] - timestamps@[i])
                >= min_gap,
{
    let n = timestamps.len();
    if n == 0 {
        return ;
    }
    let mut i: usize = 0;
    while i < n - 1
        invariant
            n == timestamps@.len(),
            1 <= n,
            i <= n - 1,
            forall|k: int|
                0 <= k < timestamps@.len() - 1 ==> i64::MIN <= #[trigger] (timestamps@[k + 1]
                    - timestamps@[k]) <= i64::MAX,
            forall|k: int|
                0 <= k < timestamps@.len() - 1 ==> #[trigger] (timestamps@[k + 1]
                    - timestamps@[k]) >= min_gap,
        decreases n - i,
    {
        let gap = timestamps[i + 1] - timestamps[i];
        assert(gap >= min_gap);
        i += 1;
    }
}

/// Checks that all timestamps lie inside the inclusive range
/// `[min, max]`.
pub fn assert_valid_range(timestamps: &[i64], min: i64, max: i64)
    requires
        forall|i: int| 0 <= i < timestamps@.len() ==> min <= #[trigger] timestamps@[i] <= max,
{
    let n = timestamps.len();
    let mut i: usize = 0;
    while i < n
        invariant
            n == timestamps@.len(),
            i <= n,
            forall|k: int| 0 <= k < timestamps@.len() ==> min <= #[trigger] timestamps@[k] <= max,
        decreases n - i,
    {
        let ts = timestamps[i];
        assert(min <= ts && ts <= max);
        i += 1;
    }
}

} // verus!

use kitchensink_testing::temporal::assert_min_gaps;
use kitchensink_testing::temporal::assert_monotonic;
use kitchensink_testing::temporal::assert_no_large_gaps;
use kitchensink_testing::temporal::assert_valid_range;

#[test]
fn test_assert_monotonic_success() {
    assert_monotonic(&[1, 2, 3, 4, 5]);
    assert_monotonic(&[100, 200, 300]);
}

#[test]
fn test_assert_no_large_gaps_success() {
    assert_no_large_gaps(&[0, 10, 20, 30], 15);
}

#[test]
fn test_assert_min_gaps_success() {
    assert_min_gaps(&[0, 10, 20, 30], 10);
}

#[test]
fn test_assert_valid_range_success() {
    assert_valid_range(&[100, 200, 300], 0, 1000);
}

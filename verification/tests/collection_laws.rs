use kitchensink_testing::collections::assert_all_satisfy;
use kitchensink_testing::collections::assert_no_duplicates;
use kitchensink_testing::collections::assert_same_elements;
use kitchensink_testing::collections::assert_size_preserved;
use kitchensink_testing::collections::assert_sorted;
use kitchensink_testing::collections::assert_sorted_descending;
use kitchensink_testing::law::invariants::assert_all_in_range;
use kitchensink_testing::law::invariants::assert_monotonic_increasing;

#[test]
fn test_size_preserved() {
    let input = vec![1, 2, 3];
    let output = vec![2, 4, 6];
    assert_size_preserved(&input, &output);
}

#[test]
fn test_no_duplicates() {
    let values = vec![1, 2, 3, 4, 5];
    assert_no_duplicates(&values);
}

#[test]
fn test_sorted() {
    let values = vec![1, 2, 3, 4, 5];
    assert_sorted(&values);
}

#[test]
fn test_sorted_descending() {
    let values = vec![5, 4, 3, 2, 1];
    assert_sorted_descending(&values);
}

#[test]
fn test_same_elements() {
    let a = vec![1, 2, 3];
    let b = vec![3, 1, 2];
    assert_same_elements(&a, &b);
}

#[test]
fn test_all_satisfy() {
    let values = vec![2, 4, 6, 8];
    assert_all_satisfy(&values, |x| x % 2 == 0);
}

#[test]
fn range_and_monotonic_examples() {
    assert_monotonic_increasing(&[1_i32, 2, 3, 10]);
    assert_all_in_range(&[0.1_f64, 0.2, 0.9], 0.0, 1.0);
}

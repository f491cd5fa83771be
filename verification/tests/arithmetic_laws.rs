use kitchensink_testing::arithmetic::assert_associative;
use kitchensink_testing::arithmetic::assert_commutative;
use kitchensink_testing::arithmetic::assert_distributive;
use kitchensink_testing::arithmetic::assert_identity;

#[test]
fn test_commutative_addition() {
    assert_commutative(5, 3, |a, b| a + b);
}

#[test]
fn test_commutative_multiplication() {
    assert_commutative(7, 4, |a, b| a * b);
}

#[test]
fn test_associative_addition() {
    assert_associative(2, 3, 4, |a, b| a + b);
}

#[test]
fn test_associative_multiplication() {
    assert_associative(2, 3, 4, |a, b| a * b);
}

#[test]
fn test_identity_addition() {
    assert_identity(5, 0, |a, b| a + b);
}

#[test]
fn test_identity_multiplication() {
    assert_identity(5, 1, |a, b| a * b);
}

#[test]
fn test_distributive() {
    assert_distributive(2, 3, 4, |a, b| a * b, |a, b| a + b);
}

#[test]
fn law_module_identity_checks_both_sides() {
    kitchensink_testing::law::algebraic::assert_identity(5, 0, |a, b| a + b);
    kitchensink_testing::law::algebraic::assert_commutative(9, 2, |a, b| a + b);
    kitchensink_testing::law::algebraic::assert_associative(1, 2, 3, |a, b| a * b);
    kitchensink_testing::law::algebraic::assert_distributive(3, 4, 5, |a, b| a * b, |a, b| a + b);
}

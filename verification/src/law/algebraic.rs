//! Algebraic law assertions.
//!
//! Each assertion's precondition states the law it checks, so a verified
//! caller can only use an assertion on inputs for which the check succeeds.

use vstd::prelude::*;

verus! {

/// Checks commutativity: `f(a, b) == f(b, a)`.
pub fn assert_commutative<T, F, R>(a: T, b: T, f: F) where
    T: Copy + core::fmt::Debug,
    F: Fn(T, T) -> R,
    R: PartialEq + core::fmt::Debug,

    requires
        f.requires((a, b)),
        f.requires((b, a)),
        forall|r1: R, r2: R| f.ensures((a, b), r1) && f.ensures((b, a), r2) ==> r1 == r2,
{
    let left = f(a, b);
    let right = f(b, a);
    assert(left == right);
}

/// Checks associativity: `f(f(a, b), c) == f(a, f(b, c))`.
pub fn assert_associative<T, F>(a: T, b: T, c: T, f: F) where
    T: Copy + PartialEq + core::fmt::Debug,
    F: Fn(T, T) -> T,

    requires
        f.requires((a, b)),
        f.requires((b, c)),
        forall|ab: T| f.ensures((a, b), ab) ==> f.requires((ab, c)),
        forall|bc: T| f.ensures((b, c), bc) ==> f.requires((a, bc)),
        forall|ab: T, bc: T, l: T, r: T|
            f.ensures((a, b), ab) && f.ensures((ab, c), l) && f.ensures((b, c), bc) && f.ensures(
                (a, bc),
                r,
            ) ==> l == r,
{
    let ab = f(a, b);
    let left = f(ab, c);
    let bc = f(b, c);
    let right = f(a, bc);
    assert(left == right);
}

/// Checks a two-sided identity element: `f(a, id) == a` and `f(id, a) == a`.
pub fn assert_identity<T, F>(a: T, identity: T, f: F) where
    T: Copy + PartialEq + core::fmt::Debug,
    F: Fn(T, T) -> T,

    requires
        f.requires((a, identity)),
        f.requires((identity, a)),
        forall|r: T| f.ensures((a, identity), r) ==> r == a,
        forall|r: T| f.ensures((identity, a), r) ==> r == a,
{
    let right = f(a, identity);
    let left = f(identity, a);
    assert(right == a);
    assert(left == a);
}

/// Checks left distributivity: `f(a, g(b, c)) == g(f(a, b), f(a, c))`.
pub fn assert_distributive<T, F, G>(a: T, b: T, c: T, f: F, g: G) where
    T: Copy + PartialEq + core::fmt::Debug,
    F: Fn(T, T) -> T,
    G: Fn(T, T) -> T,

    requires
        g.requires((b, c)),
        forall|gbc: T| g.ensures((b, c), gbc) ==> f.requires((a, gbc)),
        f.requires((a, b)),
        f.requires((a, c)),
        forall|fb: T, fc: T| f.ensures((a, b), fb) && f.ensures((a, c), fc) ==> g.requires(
            (fb, fc),
        ),
        forall|gbc: T, l: T, fb: T, fc: T, r: T|
            g.ensures((b, c), gbc) && f.ensures((a, gbc), l) && f.ensures((a, b), fb)
                && f.ensures((a, c), fc) && g.ensures((fb, fc), r) ==> l == r,
{
    let gbc = g(b, c);
    let left = f(a, gbc);
    let fb = f(a, b);
    let fc = f(a, c);
    let right = g(fb, fc);
    assert(left == right);
}

} // verus!

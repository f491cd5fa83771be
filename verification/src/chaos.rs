//! Chaos/fault-injection law helpers used by integration tests.
//!
//! Each helper's precondition states the retry law it checks, so a verified
//! caller can only use a helper with operations for which the check
//! succeeds.

use vstd::prelude::*;

verus! {

/// Repeatedly executes an operation until success, allowing retryable
/// failures up to a maximum budget.  Returns the number of attempts used.
pub fn assert_retries_to_expected_success<T, E, Op, IsRetryable>(
    max_attempts: usize,
    operation: Op,
    is_retryable: IsRetryable,
    expected: T,
) -> (attempts: usize) where
    Op: Fn() -> Result<T, E>,
    IsRetryable: Fn(&E) -> bool,
    T: PartialEq + core::fmt::Debug,

    requires
        max_attempts >= 1,
        operation.requires(()),
        forall|r: Result<T, E>| operation.ensures((), r) ==> (r matches Ok(t) && t == expected),
    ensures
        attempts == 1,
{
    let mut attempts: usize = 0;
    let mut i: usize = 0;
    while i < max_attempts
        invariant
            max_attempts >= 1,
            i == 0,
            attempts == 0,
            operation.requires(()),
            forall|r: Result<T, E>| operation.ensures((), r) ==> (r matches Ok(t) && t == expected),
        decreases max_attempts - i,
    {
        attempts += 1;
        match operation() {
            Ok(result) => {
                assert(result == expected);
                return attempts;
            },
            Err(error) => {
                assert(false);
            },
        }
        i += 1;
    }
    assert(false);
    attempts
}

/// Repeatedly executes an operation until it succeeds or fails with a
/// non-retryable error.  Returns the attempt at which execution stopped.
pub fn assert_retry_stops_after_permanent_error<T, E, Op, IsRetryable>(
    max_attempts: usize,
    operation: Op,
    is_retryable: IsRetryable,
) -> (attempts: usize) where Op: Fn() -> Result<T, E>, IsRetryable: Fn(&E) -> bool
    requires
        operation.requires(()),
        forall|e: E| operation.ensures((), Err(e)) ==> #[trigger] is_retryable.requires((&e,)),
    ensures
        max_attempts == 0 ==> attempts == 0,
        max_attempts >= 1 ==> 1 <= attempts <= max_attempts,
{
    let mut attempts: usize = 0;
    let mut i: usize = 0;
    while i < max_attempts
        invariant
            i <= max_attempts,
            attempts == i,
            operation.requires(()),
            forall|e: E| operation.ensures((), Err(e)) ==> #[trigger] is_retryable.requires(
                (&e,),
            ),
        decreases max_attempts - i,
    {
        attempts += 1;
        match operation() {
            Ok(_) => {
                return attempts;
            },
            Err(error) => {
                let retryable = is_retryable(&error);
                if !retryable {
                    return attempts;
                }
            },
        }
        i += 1;
    }
    attempts
}

/// Repeatedly executes an operation up to a budget.  If no success occurs,
/// executes `fallback` and hands the fallback value to `verify_fallback`.
/// Returns the number of attempts performed.
pub fn assert_retry_fallback<T, E, F, Op, IsRetryable, VerifyFallback>(
    max_attempts: usize,
    operation: Op,
    is_retryable: IsRetryable,
    fallback: F,
    verify_fallback: VerifyFallback,
) -> (attempts: usize) where
    Op: Fn() -> Result<T, E>,
    IsRetryable: Fn(&E) -> bool,
    F: Fn() -> T,
    VerifyFallback: Fn(&T),

    requires
        operation.requires(()),
        forall|e: E| operation.ensures((), Err(e)) ==> #[trigger] is_retryable.requires((&e,)),
        fallback.requires(()),
        forall|t: T| fallback.ensures((), t) ==> #[trigger] verify_fallback.requires((&t,)),
    ensures
        max_attempts == 0 ==> attempts == 0,
        max_attempts >= 1 ==> 1 <= attempts <= max_attempts,
{
    let mut attempts: usize = 0;
    let mut i: usize = 0;
    while i < max_attempts
        invariant
            i <= max_attempts,
            attempts == i,
            operation.requires(()),
            forall|e: E| operation.ensures((), Err(e)) ==> #[trigger] is_retryable.requires(
                (&e,),
            ),
            fallback.requires(()),
            forall|t: T| fallback.ensures((), t) ==> #[trigger] verify_fallback.requires((&t,)),
        decreases max_attempts - i,
    {
        attempts += 1;
        match operation() {
            Ok(_) => {
                return attempts;
            },
            Err(error) => {
                let retryable = is_retryable(&error);
                if !retryable {
                    let fallback_value = fallback();
                    verify_fallback(&fallback_value);
                    return attempts;
                }
            },
        }
        i += 1;
    }
    let fallback_value = fallback();
    verify_fallback(&fallback_value);
    attempts
}

/// Law-like wrapper for retry-until-success checks.
pub struct RetryEventuallySucceedsLaw<Op, IsRetryable, T, E> {
    /// Maximum number of attempts allowed.
    pub max_attempts: usize,
    /// Operation being retried.
    pub operation: Op,
    /// Predicate to determine if an error is retryable.
    pub is_retryable: IsRetryable,
    /// Expected success value.
    pub expected: T,
    /// Marker tying the law to its error type.
    pub error_type: core::marker::PhantomData<E>,
}

impl<Op, IsRetryable, T, E> RetryEventuallySucceedsLaw<Op, IsRetryable, T, E> where
    Op: Fn() -> Result<T, E>,
    IsRetryable: Fn(&E) -> bool,
    T: Copy + PartialEq + core::fmt::Debug,
 {
    /// Human-readable law name.
    #[must_use]
    pub fn name(&self) -> (r: &'static str)
        ensures
            r@ == "assert_retries_to_expected_success"@,
    {
        "assert_retries_to_expected_success"
    }

    /// Execute the law assertion.
    pub fn check(&self)
        requires
            self.max_attempts >= 1,
            (&self.operation).requires(()),
            forall|r: Result<T, E>| (&self.operation).ensures((), r) ==> (r matches Ok(t) && t
                == self.expected),
    {
        assert_retries_to_expected_success(
            self.max_attempts,
            &self.operation,
            &self.is_retryable,
            self.expected,
        );
    }

    /// Construct a retry-until-success law wrapper.
    pub fn new(max_attempts: usize, operation: Op, is_retryable: IsRetryable, expected: T) -> (r:
        Self)
        ensures
            r.max_attempts == max_attempts,
            r.operation == operation,
            r.is_retryable == is_retryable,
            r.expected == expected,
    {
        Self { max_attempts, operation, is_retryable, expected, error_type: core::marker::PhantomData }
    }
}

/// Law-like wrapper for retry-stop-on-permanent-error checks.
pub struct RetryStopsAfterPermanentErrorLaw<Op, IsRetryable> {
    /// Maximum number of attempts allowed.
    pub max_attempts: usize,
    /// Operation being retried.
    pub operation: Op,
    /// Predicate to determine if an error is retryable.
    pub is_retryable: IsRetryable,
}

impl<Op, IsRetryable, E> RetryStopsAfterPermanentErrorLaw<Op, IsRetryable> where
    Op: Fn() -> Result<(), E>,
    IsRetryable: Fn(&E) -> bool,
 {
    /// Human-readable law name.
    #[must_use]
    pub fn name(&self) -> (r: &'static str)
        ensures
            r@ == "assert_retry_stops_after_permanent_error"@,
    {
        "assert_retry_stops_after_permanent_error"
    }

    /// Execute the law assertion.
    pub fn check(&self)
        requires
            (&self.operation).requires(()),
            forall|e: E| (&self.operation).ensures((), Err(e)) ==> #[trigger] (
            &self.is_retryable).requires((&e,)),
    {
        let _ = assert_retry_stops_after_permanent_error(
            self.max_attempts,
            &self.operation,
            &self.is_retryable,
        );
    }
}

/// Law-like wrapper for retry-with-fallback checks.
pub struct RetryFallbackLaw<Op, IsRetryable, Fallback, VerifyFallback, T, E> {
    /// Maximum number of attempts allowed.
    pub max_attempts: usize,
    /// Operation being retried.
    pub operation: Op,
    /// Predicate to determine if an error is retryable.
    pub is_retryable: IsRetryable,
    /// Fallback provider used when retries are exhausted.
    pub fallback: Fallback,
    /// Fallback verification callback.
    pub verify_fallback: VerifyFallback,
    /// Marker tying the law to its result type.
    pub result_type: core::marker::PhantomData<T>,
    /// Marker tying the law to its error type.
    pub error_type: core::marker::PhantomData<E>,
}

impl<Op, IsRetryable, Fallback, VerifyFallback, T, E> RetryFallbackLaw<
    Op,
    IsRetryable,
    Fallback,
    VerifyFallback,
    T,
    E,
> where
    Op: Fn() -> Result<T, E>,
    IsRetryable: Fn(&E) -> bool,
    Fallback: Fn() -> T,
    VerifyFallback: Fn(&T),
 {
    /// Human-readable law name.
    #[must_use]
    pub fn name(&self) -> (r: &'static str)
        ensures
            r@ == "assert_retry_fallback"@,
    {
        "assert_retry_fallback"
    }

    /// Execute the law assertion.
    pub fn check(&self)
        requires
            (&self.operation).requires(()),
            forall|e: E| (&self.operation).ensures((), Err(e)) ==> #[trigger] (
            &self.is_retryable).requires((&e,)),
            (&self.fallback).requires(()),
            forall|t: T| (&self.fallback).ensures((), t) ==> #[trigger] (
            &self.verify_fallback).requires((&t,)),
    {
        let _ = assert_retry_fallback(
            self.max_attempts,
            &self.operation,
            &self.is_retryable,
            &self.fallback,
            &self.verify_fallback,
        );
    }

    /// Construct a retry-with-fallback law wrapper.
    pub fn new(
        max_attempts: usize,
        operation: Op,
        is_retryable: IsRetryable,
        fallback: Fallback,
        verify_fallback: VerifyFallback,
    ) -> (r: Self)
        ensures
            r.max_attempts == max_attempts,
            r.operation == operation,
            r.is_retryable == is_retryable,
            r.fallback == fallback,
            r.verify_fallback == verify_fallback,
    {
        Self {
            max_attempts,
            operation,
            is_retryable,
            fallback,
            verify_fallback,
            result_type: core::marker::PhantomData,
            error_type: core::marker::PhantomData,
        }
    }
}

} // verus!

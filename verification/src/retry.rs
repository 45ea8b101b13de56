//! Bounded retry of a fallible step, collecting every failure.
//!
//! An operation is tried up to `limit + 1` times; the first success wins.
//! When every attempt fails, all errors are returned together, in attempt
//! order, and none is dropped.  The executor knows nothing of the
//! operation's meaning: idempotence is the caller's responsibility.

use vstd::prelude::*;
use crate::errors::AggregateError;

verus! {

/// How many retries follow the first attempt.
pub const RETRY_LIMIT: u32 = 1;

/// The fixed pause between attempts, in seconds.  The wait itself is the
/// surrounding process's work.
pub const DELAY_SECS_BETWEEN_RETRY: u64 = 2;

/// Run `f` up to `limit + 1` times, passing the attempt number, and stop at
/// the first success.  On exhaustion, the aggregate holds exactly one error
/// per attempt, in attempt order.
pub fn retry_with_limit<ErrType, Func: Fn(u32) -> Result<(), ErrType>>(
    limit: u32,
    f: Func,
) -> (r: Result<(), AggregateError<ErrType>>)
    requires
        limit < u32::MAX,
        forall|i: u32| i <= limit ==> call_requires(f, (i,)),
    ensures
        r matches Err(agg) ==> agg@.len() == limit + 1,
        r matches Err(agg) ==> forall|i: int|
            0 <= i <= limit ==> call_ensures(f, (i as u32,), Result::Err(agg@[i])),
        r is Ok ==> exists|i: u32| i <= limit && call_ensures(f, (i,), Result::<(), ErrType>::Ok(())),
{
    let mut errors: Vec<ErrType> = Vec::new();
    let mut attempt: u32 = 0;
    while attempt <= limit
        invariant
            limit < u32::MAX,
            attempt <= limit + 1,
            errors@.len() == attempt,
            forall|i: u32| i <= limit ==> call_requires(f, (i,)),
            forall|i: int| 0 <= i < attempt ==> call_ensures(f, (i as u32,), Result::Err(errors@[i])),
        decreases limit + 1 - attempt,
    {
        let res = f(attempt);
        match res {
            Ok(_) => {
                proof {
                    assert(res is Ok);
                    assert(res->Ok_0 == ());
                    assert(res == Result::<(), ErrType>::Ok(()));
                    assert(call_ensures(f, (attempt,), Result::<(), ErrType>::Ok(())));
                }
                return Ok(());
            },
            Err(e) => {
                errors.push(e);
                attempt = attempt + 1;
            },
        }
    }
    Err(AggregateError::from_iter(errors))
}

/// Run `f` with the fixed retry limit of this worker.
pub fn retry<ErrType, Func: Fn(u32) -> Result<(), ErrType>>(f: Func) -> (r: Result<
    (),
    AggregateError<ErrType>,
>)
    requires
        forall|i: u32| i <= RETRY_LIMIT ==> call_requires(f, (i,)),
    ensures
        r matches Err(agg) ==> agg@.len() == RETRY_LIMIT + 1,
        r matches Err(agg) ==> forall|i: int|
            0 <= i <= RETRY_LIMIT ==> call_ensures(f, (i as u32,), Result::Err(agg@[i])),
        r is Ok ==> exists|i: u32|
            i <= RETRY_LIMIT && call_ensures(f, (i,), Result::<(), ErrType>::Ok(())),
{
    retry_with_limit(RETRY_LIMIT, f)
}

/// The retry bookkeeping alone, for operations the surrounding process must
/// run itself (a network call, a child process): it reports each failure
/// here and is told whether to try again.
pub struct RetryState<E> {
    /// How many retries follow the first attempt.
    pub limit: u32,
    /// Every failure seen so far, in attempt order.
    pub errors: Vec<E>,
}

impl<E> RetryState<E> {
    /// Start a fresh attempt series.
    pub fn new(limit: u32) -> (s: Self)
        ensures
            s.limit == limit,
            s.errors@ == Seq::<E>::empty(),
    {
        RetryState { limit, errors: Vec::new() }
    }

    /// Record one failed attempt.  Returns true when another attempt is
    /// still allowed, false when the series is exhausted.
    pub fn on_failure(&mut self, e: E) -> (again: bool)
        ensures
            final(self).limit == old(self).limit,
            final(self).errors@ == old(self).errors@.push(e),
            again == (old(self).errors@.len() < old(self).limit),
    {
        let exhausted = self.errors.len() >= self.limit as usize;
        self.errors.push(e);
        !exhausted
    }

    /// Give up: hand every collected failure out as one aggregate.
    pub fn into_aggregate(self) -> (r: AggregateError<E>)
        requires
            self.errors@.len() >= 1,
        ensures
            r@ == self.errors@,
    {
        AggregateError::from_iter(self.errors)
    }
}

} // verus!

//! Results of running code in a JS `try catch` block.

use vstd::prelude::*;

use crate::common::Step;

verus! {

/// Result of a function run in a `try catch` block: `returned` is what it
/// returned, `None` if it threw; `message` is then the message of what it
/// threw.
pub fn try_result<R>(returned: Option<R>, message: String) -> (result: Result<R, String>)
    ensures
        match returned {
            Some(r) => result == Ok::<R, String>(r),
            None => result matches Err(m) && m@ == message@,
        },
{
    match returned {
        Some(value) => Ok(value),
        None => Err(message),
    }
}

/// Result of polling a future in a `try catch` block: a throw ends the
/// future with its message.
pub fn try_poll<T>(polled: Result<Step<T>, String>) -> (step: Step<Result<T, String>>)
    ensures
        match polled {
            Ok(Step::Ready(t)) => step == Step::Ready(Ok::<T, String>(t)),
            Ok(Step::Pending) => step is Pending,
            Err(m) => step == Step::Ready(Err::<T, String>(m)),
        },
{
    match polled {
        Ok(Step::Ready(value)) => Step::Ready(Ok(value)),
        Ok(Step::Pending) => Step::Pending,
        Err(error) => Step::Ready(Err(error)),
    }
}

/// Wrapping a future in a JS `try catch` block.
#[derive(Debug)]
pub struct TryFuture<F> {
    /// The wrapped future.
    pub future: F,
}

impl<F> TryFuture<F> {
    /// Creates a new [`TryFuture`].
    pub fn new(future: F) -> (wrapped: Self)
        ensures
            wrapped.future == future,
    {
        TryFuture { future }
    }
}

} // verus!

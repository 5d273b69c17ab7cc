//! Scoped threads: counting the threads a scope waits for.

use vstd::prelude::*;

use crate::common::Step;

verus! {

/// Shared data between a scope and its threads: the number of running
/// threads.
#[derive(Debug)]
pub struct ScopeData {
    /// Number of running threads.
    pub threads: u64,
}

impl ScopeData {
    /// Creates the data of a new scope: no thread running.
    pub fn new() -> (scope: Self)
        ensures
            scope.threads == 0,
    {
        ScopeData { threads: 0 }
    }

    /// Returns the number of current threads.
    pub fn thread_count(&self) -> (count: u64)
        ensures
            count == self.threads,
    {
        self.threads
    }

    /// A thread was spawned in the scope. This can't overflow: creating a
    /// thread ID fails before as many threads exist.
    pub fn thread_spawned(&mut self)
        requires
            old(self).threads < u64::MAX,
        ensures
            final(self).threads == old(self).threads + 1,
    {
        self.threads = self.threads + 1;
    }

    /// A thread of the scope finished. Returns `true` if it was the last
    /// one: the spawning thread is then unparked and its waker woken.
    pub fn thread_finished(&mut self) -> (last: bool)
        requires
            old(self).threads > 0,
        ensures
            final(self).threads == old(self).threads - 1,
            last == (old(self).threads == 1),
    {
        let before = self.threads;
        self.threads = before - 1;
        before == 1
    }

    /// One round of waiting for the scope to end, blocking: returns `true`
    /// once no thread runs, else the caller parks and asks again.
    pub fn finish(&self) -> (done: bool)
        ensures
            done == (self.threads == 0),
    {
        self.threads == 0
    }
}

/// End the scope asynchronously: `before` is the thread count read first,
/// `after` the count read again after the waker was registered (only read
/// if `before` was not zero). Ready once either read is zero.
pub fn finish_async(before: u64, after: u64) -> (step: Step<()>)
    ensures
        step == (if before == 0 || after == 0 {
            Step::Ready(())
        } else {
            Step::<()>::Pending
        }),
{
    if before == 0 {
        return Step::Ready(());
    }
    if after == 0 {
        Step::Ready(())
    } else {
        Step::Pending
    }
}

/// Spawning `n` threads in a scope and finishing all of them brings the
/// count back to where it was, and exactly the last finish wakes the scope.
pub proof fn lemma_scope_balances(start: u64, n: u64)
    requires
        start + n <= u64::MAX,
        n > 0,
    ensures
        (start + n) - n == start,
        ((start + n) - (n - 1) == 1) <==> start == 0,
{
}

} // verus!

//! Waiting asynchronously on an atomic value: `Atomics.waitAsync` where the
//! browser has it, else a polyfill that blocks in a helper worker. Helper
//! workers are cached for reuse.

use vstd::prelude::*;

use crate::common::Step;

verus! {

/// Arbitrary limited amount of workers to cache.
pub const POLYFILL_WORKER_CACHE: usize = 10;

/// How an asynchronous wait on an atomic value proceeds.
#[derive(Clone, Copy, Debug, PartialEq, Eq, Structural)]
pub enum WaitPlan {
    /// The value already differs from the expected one: nothing to wait for.
    Done,
    /// Use `Atomics.waitAsync`.
    Native,
    /// Use the polyfill worker.
    Polyfill,
}

/// Plans the wait: short-circuits before going through the browser if the
/// value already changed.
pub fn wait_plan(value: i32, check: i32, has_wait_async: bool) -> (plan: WaitPlan)
    ensures
        plan == (if value != check {
            WaitPlan::Done
        } else if has_wait_async {
            WaitPlan::Native
        } else {
            WaitPlan::Polyfill
        }),
{
    if value != check {
        WaitPlan::Done
    } else if has_wait_async {
        WaitPlan::Native
    } else {
        WaitPlan::Polyfill
    }
}

/// `Atomics.waitAsync` returns a promise to wait for only if its result is
/// asynchronous.
pub fn native_needs_await(result_async: bool) -> (wait: bool)
    ensures
        wait == result_async,
{
    result_async
}

/// Cached helper workers of the polyfill, by the caller's handles.
#[derive(Debug)]
pub struct WorkerCache {
    /// The cached workers; the last one is reused first.
    pub workers: Vec<u64>,
}

impl WorkerCache {
    /// The cache holds at most [`POLYFILL_WORKER_CACHE`] workers.
    pub open spec fn wf(&self) -> bool {
        self.workers@.len() <= POLYFILL_WORKER_CACHE
    }

    /// An empty cache.
    pub fn new() -> (cache: Self)
        ensures
            cache.wf(),
            cache.workers@.len() == 0,
    {
        WorkerCache { workers: Vec::new() }
    }

    /// Takes a worker out of the cache to wait in; `None` means a new one
    /// has to be created.
    pub fn acquire(&mut self) -> (worker: Option<u64>)
        requires
            old(self).wf(),
        ensures
            final(self).wf(),
            old(self).workers@.len() == 0 ==> worker is None && final(self).workers@ == old(self).workers@,
            old(self).workers@.len() > 0 ==> worker == Some(old(self).workers@.last())
                && final(self).workers@ == old(self).workers@.drop_last(),
    {
        self.workers.pop()
    }

    /// Puts a worker that finished waiting back: it is pushed, and the cache
    /// is cut to its limit, so a worker released into a full cache is the one
    /// dropped.
    pub fn release(&mut self, worker: u64)
        requires
            old(self).wf(),
        ensures
            final(self).wf(),
            final(self).workers@ == old(self).workers@.push(worker).take(
                if old(self).workers@.len() + 1 <= POLYFILL_WORKER_CACHE {
                    (old(self).workers@.len() + 1) as int
                } else {
                    POLYFILL_WORKER_CACHE as int
                },
            ),
    {
        self.workers.push(worker);
        self.workers.truncate(POLYFILL_WORKER_CACHE);
    }
}

/// A worker released into a cache that is not full is the next one
/// acquired from it, and the cache is then as before.
pub proof fn lemma_release_then_acquire(cached: Seq<u64>, worker: u64)
    requires
        cached.len() < POLYFILL_WORKER_CACHE,
    ensures
        cached.push(worker).take(cached.len() + 1int).last() == worker,
        cached.push(worker).take(cached.len() + 1int).drop_last() == cached,
{
    assert(cached.push(worker).take(cached.len() + 1int) =~= cached.push(worker));
    assert(cached.push(worker).drop_last() =~= cached);
}

/// State of a wait through the polyfill worker.
#[derive(Debug)]
pub struct PolyfillWait {
    /// The worker reported that the value changed.
    pub finished: bool,
}

impl PolyfillWait {
    /// A wait that just started.
    pub fn new() -> (wait: Self)
        ensures
            !wait.finished,
    {
        PolyfillWait { finished: false }
    }

    /// The worker's message arrived.
    pub fn message(&mut self)
        ensures
            final(self).finished,
    {
        self.finished = true;
    }

    /// Polls the wait: ready once the worker reported; else the caller
    /// stores the waker.
    pub fn poll(&self) -> (step: Step<()>)
        ensures
            step == (if self.finished {
                Step::Ready(())
            } else {
                Step::<()>::Pending
            }),
    {
        if self.finished {
            Step::Ready(())
        } else {
            Step::Pending
        }
    }
}

} // verus!

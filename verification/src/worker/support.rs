//! Finding out if workers can be spawned from workers, which asynchronous
//! waiting needs. The answer is cached once known.

use vstd::prelude::*;

use crate::common::{once_cell_get, once_cell_try_insert, once_cell_value, Step};

verus! {

/// Type of the global context, as far as the support check cares.
#[derive(Clone, Copy, Debug, PartialEq, Eq, Structural)]
pub enum GlobalContext {
    /// `Window`.
    Window,
    /// Any `WorkerGlobalScope`.
    Worker,
    /// Worklet.
    Worklet,
}

/// The context can't be used to determine support: worklets can't.
#[derive(Clone, Copy, Debug, PartialEq, Eq, Structural)]
pub struct AsyncSupportError;

impl AsyncSupportError {
    /// The message of the error.
    pub fn message(&self) -> (message: String)
        ensures
            message@ == "context can't be used to determine support"@,
    {
        String::from_str("context can't be used to determine support")
    }
}

/// State of [`AsyncSupportFuture`].
#[derive(Clone, Copy, Debug, PartialEq, Eq, Structural)]
pub enum SupportState {
    /// The answer is known.
    Ready(bool),
    /// A test worker was started in the window; it reports whether workers
    /// can construct workers.
    Worker,
}

/// Waits for the support check. `None` once finished.
#[derive(Debug)]
pub struct AsyncSupportFuture {
    /// Current state.
    pub state: Option<SupportState>,
}

/// What the support check starts with, and the cached answer afterwards:
/// `None` in the first component means the context can't find out.
pub open spec fn spec_start(cached: Option<bool>, wait_async: bool, global: GlobalContext, has_worker: bool) -> (
    Option<SupportState>,
    Option<bool>,
) {
    match cached {
        Some(known) => (Some(SupportState::Ready(known)), cached),
        None => if wait_async {
            (Some(SupportState::Ready(true)), Some(true))
        } else {
            match global {
                GlobalContext::Window => (Some(SupportState::Worker), None),
                GlobalContext::Worker => (Some(SupportState::Ready(has_worker)), Some(has_worker)),
                GlobalContext::Worklet => (None, None),
            }
        },
    }
}

/// Starts the support check. `cache` holds the answer once known,
/// `wait_async` says whether `Atomics.waitAsync` exists (then no worker is
/// needed), `has_worker` whether a worker thread has the `Worker`
/// constructor. In the window a test worker has to be started. Worklets
/// can't find out.
pub fn has_async_support(
    cache: &mut once_cell::sync::OnceCell<bool>,
    wait_async: bool,
    global: GlobalContext,
    has_worker: bool,
) -> (result: Result<AsyncSupportFuture, AsyncSupportError>)
    ensures
        once_cell_value(*final(cache)) == spec_start(once_cell_value(*old(cache)), wait_async, global, has_worker).1,
        match spec_start(once_cell_value(*old(cache)), wait_async, global, has_worker).0 {
            Some(state) => result matches Ok(f) && f.state == Some(state),
            None => result is Err,
        },
        once_cell_value(*old(cache)) is None && !wait_async && global == GlobalContext::Worker
            ==> (result matches Ok(f) && f.state == Some(SupportState::Ready(has_worker))
                && once_cell_value(*final(cache)) == Some(has_worker)),
        result matches Ok(f) ==> (f.state matches Some(SupportState::Ready(answer))
            ==> once_cell_value(*final(cache)) == Some(answer)),
{
    proof {
        lemma_support_answer(once_cell_value(*cache), wait_async, global, has_worker);
    }
    if let Some(support) = once_cell_get(cache) {
        return Ok(AsyncSupportFuture { state: Some(SupportState::Ready(support)) });
    }
    let state = if wait_async {
        SupportState::Ready(true)
    } else {
        match global {
            GlobalContext::Window => SupportState::Worker,
            GlobalContext::Worker => SupportState::Ready(has_worker),
            GlobalContext::Worklet => {
                return Err(AsyncSupportError);
            },
        }
    };
    if let SupportState::Ready(support) = state {
        let _ = once_cell_try_insert(cache, support);
    }
    Ok(AsyncSupportFuture { state: Some(state) })
}

/// What the support check answers, by where it runs:
/// - a known answer is given again, and the cache stays;
/// - else with `Atomics.waitAsync` no worker is needed: the answer is `true`;
/// - else a worker answers whether it has the `Worker` constructor;
/// - else the window has to ask a test worker, and nothing is cached;
/// - else (a worklet) there is no answer.
/// Every answer given is the one cached afterwards.
pub proof fn lemma_support_answer(cached: Option<bool>, wait_async: bool, global: GlobalContext, has_worker: bool)
    ensures
        ({
            let (state, after) = spec_start(cached, wait_async, global, has_worker);
            &&& cached matches Some(known) ==> state == Some(SupportState::Ready(known)) && after == cached
            &&& cached is None && wait_async ==> state == Some(SupportState::Ready(true))
            &&& cached is None && !wait_async && global == GlobalContext::Worker
                ==> state == Some(SupportState::Ready(has_worker)) && after == Some(has_worker)
            &&& cached is None && !wait_async && global == GlobalContext::Window
                ==> state == Some(SupportState::Worker) && after is None
            &&& cached is None && !wait_async && global == GlobalContext::Worklet ==> state is None && after is None
            &&& (state matches Some(SupportState::Ready(answer)) ==> after == Some(answer))
            &&& (state is None <==> (cached is None && !wait_async && global == GlobalContext::Worklet))
        }),
{
}

/// Once the answer is known it stays the same: a check started after one
/// that found the answer starts with that answer, whatever the thread and
/// whatever `Atomics.waitAsync` support it sees, and leaves the cache as
/// it is.
pub proof fn lemma_answer_stays(
    cached: Option<bool>,
    first: (bool, GlobalContext, bool),
    second: (bool, GlobalContext, bool),
)
    requires
        spec_start(cached, first.0, first.1, first.2).1 is Some,
    ensures
        ({
            let after = spec_start(cached, first.0, first.1, first.2).1;
            &&& spec_start(after, second.0, second.1, second.2).0 == Some(SupportState::Ready(after->0))
            &&& spec_start(after, second.0, second.1, second.2).1 == after
        }),
{
}

/// What to do with the test worker.
#[derive(Clone, Copy, Debug, PartialEq, Eq, Structural)]
pub enum WorkerCleanup {
    /// Nothing: no test worker is running.
    Keep,
    /// Terminate the test worker and remove its message handler.
    Terminate,
}

impl AsyncSupportFuture {
    /// Stops the check: takes the state; a running test worker is
    /// terminated. Returns the answer if known (`reported` is what the test
    /// worker reported so far).
    pub fn abort(&mut self, reported: Option<bool>) -> (result: (Option<bool>, WorkerCleanup))
        ensures
            final(self).state is None,
            match old(self).state {
                Some(SupportState::Ready(s)) => result == (Some(s), WorkerCleanup::Keep),
                Some(SupportState::Worker) => result == (reported, WorkerCleanup::Terminate),
                None => result == (None::<bool>, WorkerCleanup::Keep),
            },
    {
        match self.state.take() {
            Some(SupportState::Ready(support)) => (Some(support), WorkerCleanup::Keep),
            Some(SupportState::Worker) => (reported, WorkerCleanup::Terminate),
            None => (None, WorkerCleanup::Keep),
        }
    }

    /// Returns the answer without waiting, if it is known: from the cache
    /// (the check is then stopped), from the state, or from what the test
    /// worker `reported` (the worker is then terminated, the state is kept).
    /// Calling it after the answer was returned is a panic.
    pub fn into_inner(&mut self, cache: &once_cell::sync::OnceCell<bool>, reported: Option<bool>) -> (result: (Option<bool>, WorkerCleanup))
        requires
            old(self).state is Some,
        ensures
            match once_cell_value(*cache) {
                Some(known) => result.0 == Some(known) && final(self).state is None
                    && result.1 == (if old(self).state == Some(SupportState::Worker) {
                        WorkerCleanup::Terminate
                    } else {
                        WorkerCleanup::Keep
                    }),
                None => match old(self).state {
                    Some(SupportState::Ready(s)) => result == (Some(s), WorkerCleanup::Keep) && final(self).state is None,
                    _ => final(self).state == old(self).state && match reported {
                        Some(r) => result == (Some(r), WorkerCleanup::Terminate),
                        None => result == (None::<bool>, WorkerCleanup::Keep),
                    },
                },
            },
    {
        if let Some(support) = once_cell_get(cache) {
            let (_, cleanup) = self.abort(reported);
            return (Some(support), cleanup);
        }
        match self.state {
            Some(SupportState::Ready(support)) => {
                self.state = None;
                (Some(support), WorkerCleanup::Keep)
            },
            _ => match reported {
                Some(support) => (Some(support), WorkerCleanup::Terminate),
                None => (None, WorkerCleanup::Keep),
            },
        }
    }

    /// Polls the check: `report` is the outcome of polling the test
    /// worker's report. The answer is cached once the worker reported. Polling
    /// after completion is a panic.
    pub fn poll(&mut self, cache: &mut once_cell::sync::OnceCell<bool>, report: Step<bool>) -> (result: (Step<bool>, WorkerCleanup))
        requires
            old(self).state is Some,
        ensures
            match once_cell_value(*old(cache)) {
                Some(known) => result.0 == Step::Ready(known) && final(self).state is None
                    && once_cell_value(*final(cache)) == Some(known)
                    && result.1 == (if old(self).state == Some(SupportState::Worker) {
                        WorkerCleanup::Terminate
                    } else {
                        WorkerCleanup::Keep
                    }),
                None => match old(self).state {
                    Some(SupportState::Ready(s)) => result == (Step::Ready(s), WorkerCleanup::Keep)
                        && final(self).state is None && once_cell_value(*final(cache)) is None,
                    _ => match report {
                        Step::Ready(r) => result == (Step::Ready(r), WorkerCleanup::Terminate)
                            && final(self).state is None && once_cell_value(*final(cache)) == Some(r),
                        Step::Pending => result == (Step::<bool>::Pending, WorkerCleanup::Keep)
                            && final(self).state == old(self).state && once_cell_value(*final(cache)) is None,
                    },
                },
            },
    {
        if let Some(support) = once_cell_get(cache) {
            let (_, cleanup) = self.abort(None);
            return (Step::Ready(support), cleanup);
        }
        match self.state {
            Some(SupportState::Ready(support)) => {
                self.state = None;
                (Step::Ready(support), WorkerCleanup::Keep)
            },
            _ => match report {
                Step::Ready(support) => {
                    self.state = None;
                    let _ = once_cell_try_insert(cache, support);
                    (Step::Ready(support), WorkerCleanup::Terminate)
                },
                Step::Pending => (Step::Pending, WorkerCleanup::Keep),
            },
        }
    }

    /// Returns [`true`] once the check finished.
    pub fn is_terminated(&self) -> (terminated: bool)
        ensures
            terminated == self.state is None,
    {
        self.state.is_none()
    }
}

/// One-shot channel through which the test worker's answer arrives.
#[derive(Debug)]
pub struct Oneshot {
    /// The answer, once arrived.
    pub result: Option<bool>,
    /// A waker is stored, to be woken when the answer arrives.
    pub waker: bool,
}

impl Oneshot {
    /// An empty channel.
    pub fn new() -> (oneshot: Self)
        ensures
            oneshot.result is None,
            !oneshot.waker,
    {
        Oneshot { result: None, waker: false }
    }

    /// The answer, if arrived.
    pub fn get(&self) -> (result: Option<bool>)
        ensures
            result == self.result,
    {
        self.result
    }

    /// The answer arrived: stores it and returns whether a stored waker has
    /// to be woken (it is taken).
    pub fn set(&mut self, result: bool) -> (wake: bool)
        ensures
            final(self).result == Some(result),
            wake == old(self).waker,
            !final(self).waker,
    {
        self.result = Some(result);
        let wake = self.waker;
        self.waker = false;
        wake
    }

    /// Polls: ready with the answer; else the waker is stored.
    pub fn poll(&mut self) -> (step: Step<bool>)
        ensures
            final(self).result == old(self).result,
            match old(self).result {
                Some(r) => step == Step::Ready(r) && final(self).waker == old(self).waker,
                None => step is Pending && final(self).waker,
            },
    {
        match self.result {
            Some(result) => Step::Ready(result),
            None => {
                self.waker = true;
                Step::Pending
            },
        }
    }
}

} // verus!

//! Platform-specific extensions for the Web platform: support queries and
//! the futures of asynchronous scopes.

use vstd::prelude::*;

use crate::common::{once_cell_get, once_cell_try_insert, once_cell_value, Step};
use crate::thread::global::{spec_has_block_support, GlobalKind};
use crate::thread::scope::ScopeData;

verus! {

/// Returns [`true`] if the current thread supports waiting, e.g. parking and
/// sleeping: `tested` is the result of testing `Atomics.wait`, used where
/// the thread type does not tell.
pub fn has_wait_support(global: Option<GlobalKind>, tested: bool) -> (supported: bool)
    ensures
        supported == spec_has_block_support(global, tested),
{
    crate::thread::global::has_block_support(global, tested)
}

/// Returns [`true`] if the platform supports spawning threads: it needs the
/// atomics target feature, cross-origin isolation and the `Worker`
/// constructor on the main thread.
pub fn has_spawn_support(atomics: bool, cross_origin_isolated: bool, has_worker_constructor: bool) -> (supported: bool)
    ensures
        supported == (atomics && cross_origin_isolated && has_worker_constructor),
{
    if atomics {
        crate::thread::global::has_spawn_support(cross_origin_isolated, has_worker_constructor)
    } else {
        crate::thread::global::has_spawn_support_without_atomics()
    }
}

/// What asking a cached support question does: a known answer is given
/// again and the cache stays; else the answer `decided` now is given and
/// kept.
pub open spec fn spec_cached(answer: Option<bool>, decided: bool) -> (Option<bool>, bool) {
    match answer {
        Some(known) => (answer, known),
        None => (Some(decided), decided),
    }
}

/// Gives the answer in `cache`, or keeps and gives `decided`.
fn cached_answer(cache: &mut once_cell::sync::OnceCell<bool>, decided: bool) -> (supported: bool)
    ensures
        (once_cell_value(*final(cache)), supported) == spec_cached(once_cell_value(*old(cache)), decided),
{
    match once_cell_get(cache) {
        Some(known) => known,
        None => {
            let _ = once_cell_try_insert(cache, decided);
            decided
        },
    }
}

/// [`has_wait_support()`] with the answer kept per thread in `cache`: the
/// first question on a thread decides it, later ones give it again.
pub fn has_wait_support_cached(
    cache: &mut once_cell::sync::OnceCell<bool>,
    global: Option<GlobalKind>,
    tested: bool,
) -> (supported: bool)
    ensures
        (once_cell_value(*final(cache)), supported) == spec_cached(
            once_cell_value(*old(cache)),
            spec_has_block_support(global, tested),
        ),
{
    let decided = has_wait_support(global, tested);
    cached_answer(cache, decided)
}

/// [`has_spawn_support()`] with the answer kept for the whole process in
/// `cache`: the first question (asked on the main thread) decides it, and
/// every later one, from any thread, gives it again.
pub fn has_spawn_support_cached(
    cache: &mut once_cell::sync::OnceCell<bool>,
    atomics: bool,
    cross_origin_isolated: bool,
    has_worker_constructor: bool,
) -> (supported: bool)
    ensures
        (once_cell_value(*final(cache)), supported) == spec_cached(
            once_cell_value(*old(cache)),
            atomics && cross_origin_isolated && has_worker_constructor,
        ),
{
    let decided = has_spawn_support(atomics, cross_origin_isolated, has_worker_constructor);
    cached_answer(cache, decided)
}

/// A cached support answer is stable: once a question was asked, every later
/// one gives the same answer, whatever would be decided then, and the cache
/// stays as it is.
pub proof fn lemma_cached_answer_stays(answer: Option<bool>, first: bool, later: bool)
    ensures
        spec_cached(spec_cached(answer, first).0, later) == (spec_cached(answer, first).0, spec_cached(answer, first).1),
        answer is None ==> spec_cached(answer, first).1 == first,
{
}

/// State of an asynchronous scope.
#[derive(Debug)]
pub enum ScopeState<F, T> {
    /// The future passed to `scope_async()` is running.
    Running(F),
    /// The future finished with this value; waiting for the spawned threads.
    Waiting(T),
    /// Polled to completion.
    Finished,
}

/// Waits for the associated scope to finish. See `scope_async()`.
#[derive(Debug)]
pub struct ScopeFuture<F, T> {
    /// Current state.
    pub state: ScopeState<F, T>,
}

/// Poll to completion to get a [`ScopeWaitFuture`]. See
/// [`ScopeFuture::into_wait()`].
#[derive(Debug)]
pub struct ScopeIntoWaitFuture<F, T>(pub ScopeFuture<F, T>);

/// Waits for the associated scope to finish. See
/// [`ScopeFuture::into_wait()`].
#[derive(Debug)]
pub struct ScopeWaitFuture<T>(pub ScopeFuture<(), T>);

impl<F, T> ScopeFuture<F, T> {
    /// A scope whose future `future` was just created.
    pub fn new(future: F) -> (scope: Self)
        ensures
            scope.state == ScopeState::<F, T>::Running(future),
    {
        ScopeFuture { state: ScopeState::Running(future) }
    }

    /// Converts this [`ScopeFuture`] to a [`ScopeWaitFuture`] by waiting until
    /// the given future to `scope_async()` is finished.
    pub fn into_wait(self) -> (future: ScopeIntoWaitFuture<F, T>)
        ensures
            future.0 == self,
    {
        ScopeIntoWaitFuture(self)
    }

    /// Polls the scope: `future` is the outcome of polling the running
    /// future (unused once it finished), `threads` the number of spawned
    /// threads still running. The scope finishes when its future did and no
    /// thread runs. Polling after completion is a panic.
    pub fn poll(&mut self, future: Step<T>, threads: u64) -> (step: Step<T>)
        requires
            !(old(self).state is Finished),
        ensures
            match old(self).state {
                ScopeState::Running(f) => match future {
                    Step::Pending => step is Pending && final(self).state == ScopeState::<F, T>::Running(f),
                    Step::Ready(t) => if threads == 0 {
                        step == Step::Ready(t) && final(self).state is Finished
                    } else {
                        step is Pending && final(self).state == ScopeState::<F, T>::Waiting(t)
                    },
                },
                ScopeState::Waiting(t) => if threads == 0 {
                    step == Step::Ready(t) && final(self).state is Finished
                } else {
                    step is Pending && final(self).state == ScopeState::<F, T>::Waiting(t)
                },
                ScopeState::Finished => false,
            },
    {
        let mut state = ScopeState::Finished;
        std::mem::swap(&mut state, &mut self.state);
        let value = match state {
            ScopeState::Running(f) => match future {
                Step::Pending => {
                    self.state = ScopeState::Running(f);
                    return Step::Pending;
                },
                Step::Ready(t) => t,
            },
            ScopeState::Waiting(t) => t,
            ScopeState::Finished => {
                return Step::Pending;
            },
        };
        if threads == 0 {
            Step::Ready(value)
        } else {
            self.state = ScopeState::Waiting(value);
            Step::Pending
        }
    }
}

impl<F, T> ScopeIntoWaitFuture<F, T> {
    /// Reverts back to [`ScopeFuture`]. See [`ScopeFuture::into_wait()`].
    pub fn revert(self) -> (future: ScopeFuture<F, T>)
        ensures
            future == self.0,
    {
        self.0
    }

    /// Polls until the future passed to `scope_async()` finished; its value
    /// is then kept by the [`ScopeWaitFuture`] that waits for the threads.
    /// Polling after completion is a panic.
    pub fn poll(&mut self, future: Step<T>) -> (step: Step<ScopeWaitFuture<T>>)
        requires
            !(old(self).0.state is Finished),
        ensures
            match old(self).0.state {
                ScopeState::Running(f) => match future {
                    Step::Pending => step is Pending && final(self).0.state == ScopeState::<F, T>::Running(f),
                    Step::Ready(t) => step == Step::Ready(ScopeWaitFuture(ScopeFuture { state: ScopeState::<(), T>::Waiting(t) }))
                        && final(self).0.state is Finished,
                },
                ScopeState::Waiting(t) => step == Step::Ready(ScopeWaitFuture(ScopeFuture { state: ScopeState::<(), T>::Waiting(t) }))
                    && final(self).0.state is Finished,
                ScopeState::Finished => false,
            },
    {
        let mut state = ScopeState::Finished;
        std::mem::swap(&mut state, &mut self.0.state);
        match state {
            ScopeState::Running(f) => match future {
                Step::Pending => {
                    self.0.state = ScopeState::Running(f);
                    Step::Pending
                },
                Step::Ready(t) => Step::Ready(ScopeWaitFuture(ScopeFuture { state: ScopeState::Waiting(t) })),
            },
            ScopeState::Waiting(t) => Step::Ready(ScopeWaitFuture(ScopeFuture { state: ScopeState::Waiting(t) })),
            ScopeState::Finished => Step::Pending,
        }
    }
}

/// Reverting a conversion gives back the scope future as it was.
pub proof fn lemma_revert_undoes_into_wait<F, T>(scope: ScopeFuture<F, T>)
    ensures
        ScopeIntoWaitFuture(scope).0 == scope,
{
}

impl<T> ScopeWaitFuture<T> {
    /// One round of blocking until all associated threads are finished:
    /// once the scope's thread count is zero, returns the value of the
    /// scope's future; else gives the future back, and the caller parks
    /// until woken and asks again. Calling it after the future was polled to
    /// completion is a panic, so it must still be waiting.
    pub fn join(self, scope: &ScopeData) -> (result: Result<T, Self>)
        requires
            self.0.state is Waiting,
        ensures
            scope.threads == 0 ==> (result matches Ok(value)
                && self.0.state == ScopeState::<(), T>::Waiting(value)),
            scope.threads != 0 ==> result == Err::<T, Self>(self),
    {
        if !scope.finish() {
            return Err(self);
        }
        match self.0.state {
            ScopeState::Waiting(t) => Ok(t),
            _ => vstd::pervasive::unreached(),
        }
    }

    /// Polls: ready with the value once no thread runs.
    pub fn poll(&mut self, threads: u64) -> (step: Step<T>)
        requires
            old(self).0.state is Waiting,
        ensures
            match old(self).0.state {
                ScopeState::Waiting(t) => if threads == 0 {
                    step == Step::Ready(t) && final(self).0.state is Finished
                } else {
                    step is Pending && final(self).0.state == ScopeState::<(), T>::Waiting(t)
                },
                _ => false,
            },
    {
        self.0.poll(Step::Pending, threads)
    }
}

} // verus!

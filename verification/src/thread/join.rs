//! Joining threads: the state shared between a thread and its join handle.

use vstd::prelude::*;

use crate::common::Step;

verus! {

/// Outcome of trying to lock the slot in which a thread leaves its result.
#[derive(Debug)]
pub enum TryLock<T> {
    /// Locked; the slot holds this.
    Locked(Option<T>),
    /// The lock was poisoned; the slot holds this.
    Poisoned(Option<T>),
    /// Someone else holds the lock.
    WouldBlock,
}

/// What the slot holds as far as one lock attempt saw.
pub open spec fn seen<T>(lock: TryLock<T>) -> Option<T> {
    match lock {
        TryLock::Locked(value) => value,
        TryLock::Poisoned(value) => value,
        TryLock::WouldBlock => None,
    }
}

/// Whether a handle reports its thread as finished.
pub open spec fn is_finished_spec<T>(taken: bool, lock: TryLock<T>) -> bool {
    taken || seen(lock) is Some
}

/// See `std::thread::JoinHandle::is_finished()`. `taken` says whether the
/// result was already taken by an asynchronous join.
pub fn is_finished<T>(taken: bool, lock: &TryLock<T>) -> (finished: bool)
    ensures
        finished == is_finished_spec(taken, *lock),
{
    if taken {
        return true;
    }
    match lock {
        TryLock::Locked(Some(_)) => true,
        TryLock::Poisoned(value) => value.is_some(),
        _ => false,
    }
}

/// Checks made before joining a thread, blocking: it is a panic to join
/// on the thread to join, after an asynchronous join took the result,
/// or on a thread that can't block, so none of these may hold. Returns the
/// result if the slot holds it already.
pub fn join_start<T>(thread_id: u64, current_id: u64, taken: bool, block_support: bool, slot: Option<T>) -> (result: Option<T>)
    requires
        thread_id != current_id,
        !taken,
        block_support,
    ensures
        result == slot,
{
    slot
}

/// Join handle state of the asynchronous join.
#[derive(Debug)]
pub struct JoinState {
    /// The result was taken by a join.
    pub taken: bool,
}

/// What an asynchronous join does after its first look at the slot.
#[derive(Debug)]
pub enum JoinPoll<T> {
    /// The result is there.
    Ready(T),
    /// Register the waker, then look again.
    RegisterAndRetry,
}

impl JoinState {
    /// A new handle: nothing taken.
    pub fn new() -> (state: Self)
        ensures
            !state.taken,
    {
        JoinState { taken: false }
    }

    /// First look of an asynchronous join at the slot. Polling after the
    /// result was taken, or on the thread to join, is a panic.
    pub fn poll_first<T>(&mut self, thread_id: u64, current_id: u64, lock: TryLock<T>) -> (step: JoinPoll<T>)
        requires
            !old(self).taken,
            thread_id != current_id,
        ensures
            match seen(lock) {
                Some(v) => step == JoinPoll::Ready(v) && final(self).taken,
                None => step is RegisterAndRetry && !final(self).taken,
            },
    {
        let value = match lock {
            TryLock::Locked(value) => value,
            TryLock::Poisoned(value) => value,
            TryLock::WouldBlock => None,
        };
        match value {
            Some(value) => {
                self.taken = true;
                JoinPoll::Ready(value)
            },
            None => JoinPoll::RegisterAndRetry,
        }
    }

    /// Second look, after the waker was registered: ready if the result
    /// arrived in between, else pending.
    pub fn poll_second<T>(&mut self, lock: TryLock<T>) -> (step: Step<T>)
        requires
            !old(self).taken,
        ensures
            match seen(lock) {
                Some(v) => step == Step::Ready(v) && final(self).taken,
                None => step is Pending && !final(self).taken,
            },
    {
        let value = match lock {
            TryLock::Locked(value) => value,
            TryLock::Poisoned(value) => value,
            TryLock::WouldBlock => None,
        };
        match value {
            Some(value) => {
                self.taken = true;
                Step::Ready(value)
            },
            None => Step::Pending,
        }
    }
}

/// When `is_finished()` reports a thread as finished and the result was not
/// taken yet, the slot holds the result: a blocking join that sees the same
/// slot returns it at once, without waiting.
pub proof fn lemma_finished_join_does_not_block<T>(lock: TryLock<T>, slot: Option<T>)
    requires
        seen(lock) is Some ==> slot == seen(lock),
    ensures
        is_finished_spec(false, lock) ==> slot is Some,
{
}

/// What a join that takes the result does to the handle's state (whether
/// the result was taken) and the slot: a result in the slot is taken out.
pub open spec fn spec_take<T>(taken: bool, slot: Option<T>) -> (bool, Option<T>) {
    match slot {
        Some(_) => (true, None),
        None => (taken, slot),
    }
}

/// What the thread does to the slot when it finishes: it leaves its result
/// there.
pub open spec fn spec_fill<T>(slot: Option<T>, value: T) -> Option<T> {
    match slot {
        Some(_) => slot,
        None => Some(value),
    }
}

/// Once `is_finished()` reported a thread as finished, it keeps doing so:
/// neither a join taking the result nor the thread filling the slot makes a
/// later look, that gets the lock, report it as running. (A look that finds
/// the lock held by someone else sees nothing, so it is left out.)
pub proof fn lemma_finished_stays<T>(taken: bool, slot: Option<T>, value: T, later: TryLock<T>)
    requires
        is_finished_spec(taken, TryLock::Locked(slot)),
        !(later is WouldBlock),
    ensures
        seen(later) == spec_take(taken, slot).1 ==> is_finished_spec(spec_take(taken, slot).0, later),
        seen(later) == spec_fill(slot, value) ==> is_finished_spec(taken, later),
{
}

} // verus!

//! Handles to spawned workers: destroying a worker's memory once.

use vstd::prelude::*;

use crate::common::Tls;
use crate::worker::context::{HandlerSlot, MessageHandler};

verus! {

/// Error of destroying a worker or worklet.
#[derive(Debug)]
pub enum DestroyError<T> {
    /// The worker was already destroyed; the [`Tls`] comes back.
    Already(Tls),
    /// The [`Tls`] given does not belong to this worker; both come back.
    Match { handle: T, tls: Tls },
}

impl<T> DestroyError<T> {
    /// The message of the error.
    pub fn message(&self) -> (message: String)
        ensures
            self is Already ==> message@ == "this worker was already destroyed"@,
            self is Match ==> message@ == "`Tls` value given does not belong to this worker"@,
    {
        match self {
            DestroyError::Already(_) => String::from_str("this worker was already destroyed"),
            DestroyError::Match { .. } => String::from_str("`Tls` value given does not belong to this worker"),
        }
    }
}

/// Outcome of a destroy, without the values handed back.
#[derive(Clone, Copy, Debug, PartialEq, Eq, Structural)]
pub enum DestroyOutcome {
    /// The memory is to be released.
    Destroyed,
    /// Already destroyed.
    Already,
    /// The [`Tls`] belongs to another worker.
    Mismatch,
}

/// What a destroy with a [`Tls`] of ID `tls_id` does to the shared ID state
/// `id`, and its outcome.
pub open spec fn spec_destroy(id: Option<u64>, tls_id: u64) -> (Option<u64>, DestroyOutcome) {
    match id {
        Some(i) => if i == tls_id {
            (None, DestroyOutcome::Destroyed)
        } else {
            (id, DestroyOutcome::Mismatch)
        },
        None => (id, DestroyOutcome::Already),
    }
}

/// Destroys the memory of a worker: `id` is the ID shared by all handles of
/// it, `None` once destroyed. On success the ID is cleared and the caller
/// terminates the worker and releases the memory `tls` describes.
pub fn destroy<T>(handle: T, id: &mut Option<u64>, tls: Tls) -> (result: Result<(), DestroyError<T>>)
    ensures
        *final(id) == spec_destroy(*old(id), tls.id).0,
        match spec_destroy(*old(id), tls.id).1 {
            DestroyOutcome::Destroyed => result is Ok,
            DestroyOutcome::Mismatch => result == Err::<(), DestroyError<T>>(DestroyError::Match { handle, tls }),
            DestroyOutcome::Already => result == Err::<(), DestroyError<T>>(DestroyError::Already(tls)),
        },
        result is Ok <==> *old(id) == Some(tls.id),
        result is Err ==> *final(id) == *old(id),
{
    proof {
        lemma_destroy_needs_own_tls(*id, tls.id);
    }
    match *id {
        Some(current) => {
            if current == tls.id {
                *id = None;
                Ok(())
            } else {
                Err(DestroyError::Match { handle, tls })
            }
        },
        None => Err(DestroyError::Already(tls)),
    }
}

/// Destroying needs the worker's own [`Tls`]: it succeeds exactly when the
/// worker is alive and the [`Tls`] has its ID; a [`Tls`] of another ID is a
/// mismatch and a destroyed worker reports so, and both leave the ID state
/// as it was.
pub proof fn lemma_destroy_needs_own_tls(id: Option<u64>, tls_id: u64)
    ensures
        ({
            let (after, outcome) = spec_destroy(id, tls_id);
            &&& (outcome == DestroyOutcome::Destroyed <==> id == Some(tls_id))
            &&& outcome == DestroyOutcome::Destroyed ==> after is None
            &&& (outcome == DestroyOutcome::Mismatch <==> (id matches Some(i) && i != tls_id))
            &&& (outcome == DestroyOutcome::Already <==> id is None)
            &&& outcome != DestroyOutcome::Destroyed ==> after == id
        }),
{
}

/// Memory is released at most once: after a destroy succeeded, every
/// further destroy of the same worker, with any [`Tls`], reports that it was
/// already destroyed. A mismatching [`Tls`] leaves the worker as it was.
pub proof fn lemma_destroy_once(id: Option<u64>, first: u64, second: u64)
    ensures
        spec_destroy(id, first).1 == DestroyOutcome::Destroyed
            ==> spec_destroy(spec_destroy(id, first).0, second).1 == DestroyOutcome::Already,
        spec_destroy(id, first).1 == DestroyOutcome::Mismatch ==> spec_destroy(id, first).0 == id,
{
}

/// Whether a worker handle sees a message handler: `slot` is the handler
/// slot shared by the worker's handles, `None` if every owning handle was
/// dropped.
pub fn handle_has_message_handler<C, F>(slot: Option<&HandlerSlot<C, F>>) -> (has: bool)
    ensures
        has == (slot matches Some(s) && s.handler is Some),
{
    match slot {
        Some(slot) => slot.handler.is_some(),
        None => false,
    }
}

/// Removes the message handler through a handle, if the slot still exists;
/// returns `true` if it did (the caller then clears `onmessage`).
pub fn handle_clear_message_handler<C, F>(slot: &mut HandlerSlot<C, F>, alive: bool) -> (cleared: bool)
    ensures
        cleared == alive,
        alive ==> final(slot).handler is None,
        !alive ==> final(slot).handler == old(slot).handler,
{
    if alive {
        slot.handler = None;
    }
    alive
}

/// Installs a message handler through a handle, if the slot still exists;
/// returns `true` if it did (the caller then sets `onmessage`).
pub fn handle_set_message_handler<C, F>(slot: &mut HandlerSlot<C, F>, alive: bool, handler: MessageHandler<C, F>) -> (set: bool)
    ensures
        set == alive,
        alive ==> final(slot).handler == Some(handler),
        !alive ==> final(slot).handler == old(slot).handler,
{
    if alive {
        slot.handler = Some(handler);
    }
    alive
}

/// When a worker handle is dropped: the last owning handle (strong count
/// `1`) removes the worker's `onmessage`.
pub fn clears_on_drop(strong_count: usize) -> (clear: bool)
    ensures
        clear == (strong_count == 1),
{
    strong_count == 1
}

} // verus!

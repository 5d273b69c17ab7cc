//! Handles to worklets: their ID and destroying their memory once.

use vstd::prelude::*;

use crate::common::Tls;
use crate::worker::handle::{DestroyError, DestroyOutcome};

verus! {

/// The ID state shared by a worklet's handles: `Ok(id)` while its memory is
/// alive, `Err(id)` once destroyed (and `Err(0)` before it was added).
pub open spec fn spec_worklet_destroy(id: Result<u64, u64>, tls_id: u64) -> (Result<u64, u64>, DestroyOutcome) {
    match id {
        Ok(i) => if i == tls_id {
            (Err(i), DestroyOutcome::Destroyed)
        } else {
            (id, DestroyOutcome::Mismatch)
        },
        Err(_) => (id, DestroyOutcome::Already),
    }
}

/// ID of the worklet, whether destroyed or not.
pub fn worklet_id(id: Result<u64, u64>) -> (value: u64)
    ensures
        value == match id {
            Ok(i) => i,
            Err(i) => i,
        },
{
    match id {
        Ok(i) => i,
        Err(i) => i,
    }
}

/// Whether the ID state is the live one; this is what `destroyed()`
/// reports.
pub fn destroyed(id: Result<u64, u64>) -> (result: bool)
    ensures
        result == id is Ok,
{
    id.is_ok()
}

/// Destroys the memory of a worklet; it must have finished running. On
/// success the ID state turns to `Err(id)` and the caller releases the
/// memory `tls` describes.
pub fn destroy_worklet<T>(handle: T, id: &mut Result<u64, u64>, tls: Tls) -> (result: Result<(), DestroyError<T>>)
    ensures
        *final(id) == spec_worklet_destroy(*old(id), tls.id).0,
        match spec_worklet_destroy(*old(id), tls.id).1 {
            DestroyOutcome::Destroyed => result is Ok,
            DestroyOutcome::Mismatch => result == Err::<(), DestroyError<T>>(DestroyError::Match { handle, tls }),
            DestroyOutcome::Already => result == Err::<(), DestroyError<T>>(DestroyError::Already(tls)),
        },
        result is Ok <==> *old(id) == Ok::<u64, u64>(tls.id),
        result is Ok ==> *final(id) == Err::<u64, u64>(tls.id),
        result is Err ==> *final(id) == *old(id),
        (*old(id) matches Ok(i) && i != tls.id) ==> result == Err::<(), DestroyError<T>>(DestroyError::Match { handle, tls }),
{
    proof {
        lemma_worklet_destroy_needs_own_tls(*id, tls.id);
    }
    match *id {
        Ok(current) => {
            if current == tls.id {
                *id = Err(current);
                Ok(())
            } else {
                Err(DestroyError::Match { handle, tls })
            }
        },
        Err(_) => Err(DestroyError::Already(tls)),
    }
}

/// Destroying needs the worklet's own [`Tls`]: it succeeds exactly when the
/// worklet is alive and the [`Tls`] has its ID; a [`Tls`] of another ID is a
/// mismatch and a destroyed worklet reports so, and both leave the ID state
/// as it was.
pub proof fn lemma_worklet_destroy_needs_own_tls(id: Result<u64, u64>, tls_id: u64)
    ensures
        ({
            let (after, outcome) = spec_worklet_destroy(id, tls_id);
            &&& (outcome == DestroyOutcome::Destroyed <==> id == Ok::<u64, u64>(tls_id))
            &&& outcome == DestroyOutcome::Destroyed ==> after == Err::<u64, u64>(tls_id)
            &&& (outcome == DestroyOutcome::Mismatch <==> (id matches Ok(i) && i != tls_id))
            &&& (outcome == DestroyOutcome::Already <==> id is Err)
            &&& outcome != DestroyOutcome::Destroyed ==> after == id
        }),
{
}

/// A worklet's memory is released at most once, and its ID stays the same
/// through destruction.
pub proof fn lemma_worklet_destroy_once(id: Result<u64, u64>, first: u64, second: u64)
    ensures
        spec_worklet_destroy(id, first).1 == DestroyOutcome::Destroyed
            ==> spec_worklet_destroy(spec_worklet_destroy(id, first).0, second).1 == DestroyOutcome::Already,
        match (id, spec_worklet_destroy(id, first).0) {
            (Ok(a), Err(b)) => a == b,
            (Ok(a), Ok(b)) => a == b,
            (Err(a), Err(b)) => a == b,
            (Err(_), Ok(_)) => false,
        },
{
}

} // verus!

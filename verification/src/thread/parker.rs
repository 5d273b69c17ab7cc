//! Parking and sleeping: the parker's token and what the calling thread has
//! to wait for.

use vstd::prelude::*;

verus! {

/// What a thread does after a call to park or sleep.
#[derive(Clone, Copy, Debug, PartialEq, Eq, Structural)]
pub enum ParkAction {
    /// Go on at once.
    Proceed,
    /// Block with `Atomics.wait`, with a timeout in milliseconds, if any.
    Wait { timeout_ms: Option<u128> },
}

/// Parker: holds the token an `unpark` leaves for the next `park`.
#[derive(Debug)]
pub struct Parker {
    /// An `unpark` happened that no `park` consumed yet.
    pub notified: bool,
}

impl Parker {
    /// Creates a new [`Parker`] without a token.
    pub fn new() -> (parker: Self)
        ensures
            !parker.notified,
    {
        Parker { notified: false }
    }

    /// Parks the thread: consumes the token if there is one, else the thread
    /// waits without a timeout.
    pub fn park(&mut self) -> (action: ParkAction)
        ensures
            (final(self).notified, action) == spec_park(old(self).notified),
    {
        let notified = self.notified;
        self.notified = false;
        if notified {
            ParkAction::Proceed
        } else {
            ParkAction::Wait { timeout_ms: None }
        }
    }

    /// Parks the thread with a timeout of `timeout_ms` milliseconds.
    pub fn park_timeout(&mut self, timeout_ms: u128) -> (action: ParkAction)
        ensures
            !final(self).notified,
            action == (if old(self).notified {
                ParkAction::Proceed
            } else {
                ParkAction::Wait { timeout_ms: Some(timeout_ms) }
            }),
    {
        let notified = self.notified;
        self.notified = false;
        if notified {
            ParkAction::Proceed
        } else {
            ParkAction::Wait { timeout_ms: Some(timeout_ms) }
        }
    }

    /// Unparks the thread: leaves a token for the next park.
    pub fn unpark(&mut self)
        ensures
            final(self).notified,
    {
        self.notified = true;
    }
}

/// What a park does to the token (the new token and the action).
pub open spec fn spec_park(notified: bool) -> (bool, ParkAction) {
    (false, if notified {
        ParkAction::Proceed
    } else {
        ParkAction::Wait { timeout_ms: None }
    })
}

/// One unpark releases exactly one park: a park right after an unpark
/// returns at once, and the park after that waits.
pub proof fn lemma_unpark_releases_one_park()
    ensures
        spec_park(true).1 == ParkAction::Proceed,
        spec_park(spec_park(true).0).1 == (ParkAction::Wait { timeout_ms: None }),
{
}

/// See `std::thread::park()`. Does nothing unless the calling thread
/// supports blocking.
pub fn park(block_support: bool, parker: &mut Parker) -> (action: ParkAction)
    ensures
        !block_support ==> action == ParkAction::Proceed && *final(parker) == *old(parker),
        block_support ==> !final(parker).notified && action == (if old(parker).notified {
            ParkAction::Proceed
        } else {
            ParkAction::Wait { timeout_ms: None }
        }),
{
    if block_support {
        parker.park()
    } else {
        ParkAction::Proceed
    }
}

/// Whole milliseconds that cover `duration_ns` nanoseconds: the duration
/// rounded up, so that a wait of that many milliseconds is never shorter.
pub open spec fn spec_ms_covering(duration_ns: u128) -> int {
    if duration_ns % 1_000_000 == 0 {
        (duration_ns / 1_000_000) as int
    } else {
        duration_ns / 1_000_000 + 1int
    }
}

/// Milliseconds to wait for `duration_ns` nanoseconds, rounded up.
pub fn ms_covering(duration_ns: u128) -> (ms: u128)
    ensures
        ms == spec_ms_covering(duration_ns),
        ms * 1_000_000 >= duration_ns,
        ms * 1_000_000 < duration_ns + 1_000_000,
{
    let whole = duration_ns / 1_000_000;
    if duration_ns % 1_000_000 == 0 {
        whole
    } else {
        whole + 1
    }
}

/// See `std::thread::park_timeout()`, with the timeout in nanoseconds; the
/// wait is rounded up to whole milliseconds. Does nothing unless the calling
/// thread supports blocking.
pub fn park_timeout(block_support: bool, parker: &mut Parker, timeout_ns: u128) -> (action: ParkAction)
    ensures
        !block_support ==> action == ParkAction::Proceed && *final(parker) == *old(parker),
        block_support ==> !final(parker).notified && action == (if old(parker).notified {
            ParkAction::Proceed
        } else {
            ParkAction::Wait { timeout_ms: Some(spec_ms_covering(timeout_ns) as u128) }
        }),
{
    if block_support {
        parker.park_timeout(ms_covering(timeout_ns))
    } else {
        ParkAction::Proceed
    }
}

/// See `std::thread::park_timeout_ms()`.
pub fn park_timeout_ms(block_support: bool, parker: &mut Parker, ms: u32) -> (action: ParkAction)
    ensures
        !block_support ==> action == ParkAction::Proceed && *final(parker) == *old(parker),
        block_support ==> !final(parker).notified && action == (if old(parker).notified {
            ParkAction::Proceed
        } else {
            ParkAction::Wait { timeout_ms: Some(ms as u128) }
        }),
{
    if block_support {
        parker.park_timeout(ms as u128)
    } else {
        ParkAction::Proceed
    }
}

/// See `std::thread::sleep()`, with the duration in nanoseconds: the thread
/// waits the whole milliseconds that cover it, so never less than the
/// duration. Sleeping on a thread that doesn't support blocking is a panic,
/// so the calling thread must support it.
pub fn sleep(block_support: bool, duration_ns: u128) -> (action: ParkAction)
    requires
        block_support,
    ensures
        action == (ParkAction::Wait { timeout_ms: Some(spec_ms_covering(duration_ns) as u128) }),
        action matches ParkAction::Wait { timeout_ms: Some(ms) } && ms * 1_000_000 >= duration_ns,
{
    ParkAction::Wait { timeout_ms: Some(ms_covering(duration_ns)) }
}

/// See `std::thread::sleep_ms()`.
pub fn sleep_ms(block_support: bool, ms: u32) -> (action: ParkAction)
    requires
        block_support,
    ensures
        action == (ParkAction::Wait { timeout_ms: Some(ms as u128) }),
{
    ParkAction::Wait { timeout_ms: Some(ms as u128) }
}

} // verus!

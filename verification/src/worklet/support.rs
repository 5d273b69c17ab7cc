//! Finding out if worklets can import modules. The answer is cached once
//! known.

use vstd::prelude::*;

use crate::common::{once_cell_get, once_cell_try_insert, once_cell_value, Step};

verus! {

/// State of [`ImportSupportFuture`].
#[derive(Clone, Copy, Debug, PartialEq, Eq, Structural)]
pub enum SupportState {
    /// The answer is known.
    Ready(bool),
    /// Nothing done yet.
    Unknown,
    /// A probe module is being added to an offline audio context.
    Create,
}

/// Waits for the import support check. `None` once finished.
#[derive(Debug)]
pub struct ImportSupportFuture {
    /// Current state.
    pub state: Option<SupportState>,
}

/// What one round of polling does.
#[derive(Clone, Copy, Debug, PartialEq, Eq, Structural)]
pub enum SupportPoll {
    /// The answer.
    Ready(bool),
    /// Create an offline audio context and add the probe module, then call
    /// [`ImportSupportFuture::probe_started()`].
    StartProbe,
    /// Poll the probe, then call [`ImportSupportFuture::poll_probe()`].
    PollProbe,
}

/// Starts the check: the answer if it is cached, else unknown.
pub fn has_import_support(cache: &once_cell::sync::OnceCell<bool>) -> (future: ImportSupportFuture)
    ensures
        match once_cell_value(*cache) {
            Some(s) => future.state == Some(SupportState::Ready(s)),
            None => future.state == Some(SupportState::Unknown),
        },
{
    match once_cell_get(cache) {
        Some(support) => ImportSupportFuture { state: Some(SupportState::Ready(support)) },
        None => ImportSupportFuture { state: Some(SupportState::Unknown) },
    }
}

impl ImportSupportFuture {
    /// Starts the check, probing at once unless the answer is cached: the
    /// caller then creates the offline audio context and adds the probe
    /// module.
    pub fn new(cache: &once_cell::sync::OnceCell<bool>) -> (future: Self)
        ensures
            match once_cell_value(*cache) {
                Some(s) => future.state == Some(SupportState::Ready(s)),
                None => future.state == Some(SupportState::Create),
            },
    {
        match once_cell_get(cache) {
            Some(support) => ImportSupportFuture { state: Some(SupportState::Ready(support)) },
            None => ImportSupportFuture { state: Some(SupportState::Create) },
        }
    }

    /// Returns the answer without waiting, if it is known. Calling it after
    /// the answer was returned while nothing is cached is a panic.
    pub fn into_inner(&mut self, cache: &once_cell::sync::OnceCell<bool>) -> (support: Option<bool>)
        requires
            once_cell_value(*cache) is None ==> old(self).state is Some,
        ensures
            match once_cell_value(*cache) {
                Some(s) => support == Some(s) && final(self).state is None,
                None => match old(self).state {
                    Some(SupportState::Ready(s)) => support == Some(s) && final(self).state is None,
                    _ => support is None && final(self).state == old(self).state,
                },
            },
    {
        if let Some(support) = once_cell_get(cache) {
            self.state = None;
            return Some(support);
        }
        match self.state {
            Some(SupportState::Ready(support)) => {
                self.state = None;
                Some(support)
            },
            _ => None,
        }
    }

    /// First step of polling. Polling after the answer was returned while
    /// nothing is cached is a panic.
    pub fn poll(&mut self, cache: &once_cell::sync::OnceCell<bool>) -> (step: SupportPoll)
        requires
            once_cell_value(*cache) is None ==> old(self).state is Some,
        ensures
            match once_cell_value(*cache) {
                Some(s) => step == SupportPoll::Ready(s) && final(self).state is None,
                None => match old(self).state {
                    Some(SupportState::Ready(s)) => step == SupportPoll::Ready(s) && final(self).state is None,
                    Some(SupportState::Unknown) => step == SupportPoll::StartProbe && final(self).state == old(self).state,
                    _ => step == SupportPoll::PollProbe && final(self).state == old(self).state,
                },
            },
    {
        if let Some(support) = once_cell_get(cache) {
            self.state = None;
            return SupportPoll::Ready(support);
        }
        match self.state {
            Some(SupportState::Ready(support)) => {
                self.state = None;
                SupportPoll::Ready(support)
            },
            Some(SupportState::Unknown) => SupportPoll::StartProbe,
            _ => SupportPoll::PollProbe,
        }
    }

    /// The probe module is being added.
    pub fn probe_started(&mut self)
        requires
            old(self).state == Some(SupportState::Unknown),
        ensures
            final(self).state == Some(SupportState::Create),
    {
        self.state = Some(SupportState::Create);
    }

    /// Polls the probe: `probe` is whether adding the module succeeded, once
    /// settled. Modules can be imported if it did; the answer is cached.
    /// A cache set in the meantime is a panic.
    pub fn poll_probe(&mut self, cache: &mut once_cell::sync::OnceCell<bool>, probe: Step<bool>) -> (step: Step<bool>)
        requires
            old(self).state == Some(SupportState::Create),
            once_cell_value(*old(cache)) is None,
        ensures
            match probe {
                Step::Ready(ok) => step == Step::Ready(ok) && final(self).state is None
                    && once_cell_value(*final(cache)) == Some(ok),
                Step::Pending => step is Pending && final(self).state == old(self).state
                    && once_cell_value(*final(cache)) is None,
            },
    {
        match probe {
            Step::Ready(support) => {
                self.state = None;
                let _ = once_cell_try_insert(cache, support);
                Step::Ready(support)
            },
            Step::Pending => Step::Pending,
        }
    }

    /// Returns [`true`] once finished.
    pub fn is_terminated(&self) -> (terminated: bool)
        ensures
            terminated == self.state is None,
    {
        self.state.is_none()
    }
}

} // verus!

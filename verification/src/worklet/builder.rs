//! Adding Rust to an audio worklet: the check that a context gets it only
//! once, and the steps of loading the worklet script and starting it.

use vstd::prelude::*;

use crate::common::{next_id, IdCounter, Step};

verus! {

/// Already added a Wasm module to this worklet.
#[derive(Clone, Copy, Debug, PartialEq, Eq, Structural)]
pub struct WorkletInitError;

impl WorkletInitError {
    /// The message of the error.
    pub fn message(&self) -> (message: String)
        ensures
            message@ == "already added a Wasm module to this worklet"@,
    {
        String::from_str("already added a Wasm module to this worklet")
    }
}

/// Checks the marker a context carries once Rust was added to it: `marker`
/// is its value if it is a boolean. On success the caller sets the marker.
pub fn init_check(marker: Option<bool>) -> (result: Result<(), WorkletInitError>)
    ensures
        result is Err <==> marker is Some,
{
    match marker {
        Some(_) => Err(WorkletInitError),
        None => Ok(()),
    }
}

/// What claiming a context does to its marker: a context without the marker
/// gets it and is claimed, one with it stays as it is and is refused.
pub open spec fn spec_claim(marker: Option<bool>) -> (Option<bool>, bool) {
    match marker {
        Some(_) => (marker, false),
        None => (Some(true), true),
    }
}

/// Claims a context for Rust: checks its marker and, if it has none, sets
/// it to `true`.
pub fn claim_context(marker: &mut Option<bool>) -> (result: Result<(), WorkletInitError>)
    ensures
        (*final(marker), result is Ok) == spec_claim(*old(marker)),
{
    init_check(*marker)?;
    *marker = Some(true);
    Ok(())
}

/// At most one Wasm module per context: once a context was claimed, every
/// further claim of it is refused and leaves its marker as it is.
pub proof fn lemma_claimed_once(marker: Option<bool>)
    ensures
        spec_claim(marker).1 <==> marker is None,
        !spec_claim(spec_claim(marker).0).1,
        spec_claim(spec_claim(marker).0).0 == spec_claim(marker).0,
{
}

/// Builder of a worklet.
#[derive(Debug)]
pub struct WorkletBuilder {
    /// Use the default worklet script (its URL is awaited).
    pub default_url: bool,
    /// ID state shared with the worklet's handles: `Err(0)` until added.
    pub id: Result<u64, u64>,
    /// A message handler was set for the worklet's messages.
    pub has_message_handler: bool,
}

impl WorkletBuilder {
    /// A builder with the default worklet script.
    pub fn new() -> (builder: Self)
        ensures
            builder.default_url,
            builder.id == Err::<u64, u64>(0),
            !builder.has_message_handler,
    {
        WorkletBuilder { default_url: true, id: Err(0), has_message_handler: false }
    }

    /// A builder with a given worklet script.
    pub fn new_with_url() -> (builder: Self)
        ensures
            !builder.default_url,
            builder.id == Err::<u64, u64>(0),
            !builder.has_message_handler,
    {
        WorkletBuilder { default_url: false, id: Err(0), has_message_handler: false }
    }

    /// Records that a message handler was set.
    pub fn message_handler(self) -> (builder: Self)
        ensures
            builder.has_message_handler,
            builder.default_url == self.default_url,
            builder.id == self.id,
    {
        WorkletBuilder { default_url: self.default_url, id: self.id, has_message_handler: true }
    }

    /// Adds Rust to a context carrying `marker`: fails if it was added
    /// before, else marks the context and starts. The future carries the
    /// builder's ID state and whether a message handler was set.
    pub fn add(self, marker: &mut Option<bool>) -> (result: Result<WorkletFuture, WorkletInitError>)
        ensures
            (*final(marker), result is Ok) == spec_claim(*old(marker)),
            result matches Ok(f) ==> f.state == Some(if self.default_url {
                WorkletState::Url
            } else {
                WorkletState::Add
            }) && f.id == self.id && f.has_message_handler == self.has_message_handler,
    {
        claim_context(marker)?;
        let mut future = WorkletFuture::new(self.default_url, self.has_message_handler);
        future.id = self.id;
        Ok(future)
    }
}

/// State of [`WorkletFuture`].
#[derive(Clone, Copy, Debug, PartialEq, Eq, Structural)]
pub enum WorkletState {
    /// Waiting for the default worklet script URL.
    Url,
    /// Waiting for `Worklet.addModule()`.
    Add,
}

/// What to do after the script URL is known.
#[derive(Debug)]
pub enum UrlOutcome<U, E> {
    /// Still waiting.
    Pending,
    /// Call `Worklet.addModule()` with this URL.
    AddModule(U),
    /// The URL could not be made: adding fails with this error.
    Failed(E),
}

/// Adding Rust to an audio worklet. `None` once finished.
#[derive(Debug)]
pub struct WorkletFuture {
    /// Current state.
    pub state: Option<WorkletState>,
    /// ID state shared with the worklet's handles: `Err(0)` until added.
    pub id: Result<u64, u64>,
    /// A message handler was set on the builder: it is installed on the
    /// worklet's port once added.
    pub has_message_handler: bool,
}

impl WorkletFuture {
    /// Starts adding: with the default script the URL is awaited first,
    /// else `Worklet.addModule()` was called with the given URL.
    pub fn new(default_url: bool, has_message_handler: bool) -> (future: Self)
        ensures
            future.state == Some(if default_url {
                WorkletState::Url
            } else {
                WorkletState::Add
            }),
            future.id == Err::<u64, u64>(0),
            future.has_message_handler == has_message_handler,
    {
        WorkletFuture {
            state: Some(if default_url { WorkletState::Url } else { WorkletState::Add }),
            id: Err(0),
            has_message_handler,
        }
    }

    /// Polls while waiting for the URL; `url` is the outcome of polling its
    /// future.
    pub fn poll_url<U, E>(&mut self, url: Step<Result<U, E>>) -> (outcome: UrlOutcome<U, E>)
        requires
            old(self).state == Some(WorkletState::Url),
        ensures
            final(self).id == old(self).id,
            final(self).has_message_handler == old(self).has_message_handler,
            match url {
                Step::Pending => outcome is Pending && final(self).state == old(self).state,
                Step::Ready(Ok(u)) => outcome == UrlOutcome::<U, E>::AddModule(u)
                    && final(self).state == Some(WorkletState::Add),
                Step::Ready(Err(e)) => outcome == UrlOutcome::<U, E>::Failed(e) && final(self).state is None,
            },
    {
        match url {
            Step::Pending => UrlOutcome::Pending,
            Step::Ready(Ok(url)) => {
                self.state = Some(WorkletState::Add);
                UrlOutcome::AddModule(url)
            },
            Step::Ready(Err(error)) => {
                self.state = None;
                UrlOutcome::Failed(error)
            },
        }
    }

    /// Polls while `Worklet.addModule()` loads; `added` is whether it
    /// finished (loading must not fail: that is a panic). Once loaded the
    /// worklet gets the next ID, which its handles share, and the result
    /// says whether the builder's message handler goes on its port; the
    /// caller then creates the node that runs the task.
    pub fn poll_add(&mut self, added: bool, counter: &mut IdCounter) -> (step: Step<(u64, bool)>)
        requires
            old(self).state == Some(WorkletState::Add),
        ensures
            final(self).has_message_handler == old(self).has_message_handler,
            added ==> step == Step::Ready((old(counter).next, old(self).has_message_handler))
                && final(self).state is None
                && final(self).id == Ok::<u64, u64>(old(counter).next)
                && final(counter).next == next_id(old(counter).next),
            !added ==> step is Pending && final(self).state == old(self).state
                && final(self).id == old(self).id && final(counter).next == old(counter).next,
    {
        if added {
            let id = counter.fetch_add();
            self.id = Ok(id);
            self.state = None;
            Step::Ready((id, self.has_message_handler))
        } else {
            Step::Pending
        }
    }

    /// Returns [`true`] once finished.
    pub fn is_terminated(&self) -> (terminated: bool)
        ensures
            terminated == self.state is None,
    {
        self.state.is_none()
    }
}

} // verus!

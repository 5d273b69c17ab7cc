//! Registering an audio worklet thread on a `BaseAudioContext`: the checks
//! made up front and the states the registration goes through.

use vstd::prelude::*;

use crate::common::Step;
use crate::thread::global::ThreadError;

verus! {

/// Checks made before registering a thread on a `BaseAudioContext`:
/// `closed` says whether its state is `closed`, `registered` is the value of
/// the context's registration marker.
pub fn register_precheck<E>(closed: bool, registered: Option<bool>) -> (result: Result<(), ThreadError<E>>)
    ensures
        closed ==> result matches Err(ThreadError::ContextClosed),
        !closed && registered == Some(true) ==> result matches Err(ThreadError::AlreadyRegistered),
        !closed && registered != Some(true) ==> result is Ok,
{
    if closed {
        return Err(ThreadError::ContextClosed);
    }
    match registered {
        Some(true) => Err(ThreadError::AlreadyRegistered),
        _ => Ok(()),
    }
}

/// Returns [`true`] if a context with this registration marker has a
/// registered thread.
pub fn is_registered(registered: Option<bool>) -> (result: bool)
    ensures
        result == (registered == Some(true)),
{
    match registered {
        Some(true) => true,
        _ => false,
    }
}

/// State of [`RegisterThreadFuture`].
#[derive(Debug)]
pub enum RegisterState<E> {
    /// Early error.
    Error(ThreadError<E>),
    /// Waiting for `Worklet.addModule()`.
    Module,
    /// Waiting for the registered thread to report back.
    Package,
}

/// What to do after `Worklet.addModule()` settled.
#[derive(Debug)]
pub enum ModuleOutcome<E> {
    /// Still loading.
    Pending,
    /// Loaded: initialize the main thread and create the
    /// `AudioWorkletNode` that starts the thread.
    CreateNode,
    /// Loading failed: the registration ends with this error.
    Failed(ThreadError<E>),
}

/// Registration of an audio worklet thread. `None` once finished.
#[derive(Debug)]
pub struct RegisterThreadFuture<E> {
    /// Current state.
    pub state: Option<RegisterState<E>>,
}

impl<E> RegisterThreadFuture<E> {
    /// Create a [`RegisterThreadFuture`] that returns `error`.
    pub fn error(error: ThreadError<E>) -> (future: Self)
        ensures
            future.state == Some(RegisterState::Error(error)),
    {
        RegisterThreadFuture { state: Some(RegisterState::Error(error)) }
    }

    /// Starts the registration after the checks passed and
    /// `Worklet.addModule()` was called: if the call threw, the registration
    /// fails with its exception; else the context is marked as registered
    /// (`mark` is then `true`) and the module loads.
    pub fn start(add_module: Result<(), E>) -> (result: (Self, bool))
        ensures
            match add_module {
                Ok(()) => result.0.state matches Some(RegisterState::Module) && result.1,
                Err(e) => result.0.state == Some(RegisterState::Error(ThreadError::Exception(e)))
                    && !result.1,
            },
    {
        match add_module {
            Ok(()) => (RegisterThreadFuture { state: Some(RegisterState::Module) }, true),
            Err(error) => (RegisterThreadFuture::error(ThreadError::Exception(error)), false),
        }
    }

    /// Registration on a platform that can't spawn threads: it fails at once.
    pub fn unsupported(spawn_support: bool) -> (future: Option<Self>)
        ensures
            spawn_support ==> future is None,
            !spawn_support ==> (future matches Some(f) && f.state matches Some(RegisterState::Error(ThreadError::NoSpawnSupport))),
    {
        if spawn_support {
            None
        } else {
            Some(RegisterThreadFuture::error(ThreadError::NoSpawnSupport))
        }
    }

    /// Polls in the error state: the registration ends with the error.
    pub fn poll_error(&mut self) -> (step: Step<Result<(), ThreadError<E>>>)
        requires
            old(self).state matches Some(RegisterState::Error(_)),
        ensures
            final(self).state is None,
            (old(self).state matches Some(RegisterState::Error(e)) && step == Step::Ready(Err::<(), ThreadError<E>>(e))),
    {
        match self.state.take() {
            Some(RegisterState::Error(error)) => Step::Ready(Err(error)),
            _ => Step::Pending,
        }
    }

    /// Polls while `Worklet.addModule()` loads; `promise` is the outcome of
    /// polling its `Promise`.
    pub fn poll_module(&mut self, promise: Step<Result<(), E>>) -> (outcome: ModuleOutcome<E>)
        requires
            old(self).state matches Some(RegisterState::Module),
        ensures
            match promise {
                Step::Pending => outcome is Pending && final(self).state matches Some(RegisterState::Module),
                Step::Ready(Ok(())) => outcome is CreateNode && final(self).state matches Some(RegisterState::Module),
                Step::Ready(Err(e)) => outcome == ModuleOutcome::Failed(ThreadError::Exception(e))
                    && final(self).state is None,
            },
    {
        match promise {
            Step::Pending => ModuleOutcome::Pending,
            Step::Ready(Ok(())) => ModuleOutcome::CreateNode,
            Step::Ready(Err(error)) => {
                self.state = None;
                ModuleOutcome::Failed(ThreadError::Exception(error))
            },
        }
    }

    /// Goes on after the `AudioWorkletNode` was created: on success the
    /// registration waits for the thread to report back, on an exception it
    /// fails with it (and the task handed to the node is dropped).
    pub fn node_created(&mut self, node: Result<(), E>) -> (failed: Option<ThreadError<E>>)
        requires
            old(self).state matches Some(RegisterState::Module),
        ensures
            match node {
                Ok(()) => failed is None && final(self).state matches Some(RegisterState::Package),
                Err(e) => failed == Some(ThreadError::Exception(e)) && final(self).state is None,
            },
    {
        match node {
            Ok(()) => {
                self.state = Some(RegisterState::Package);
                None
            },
            Err(error) => {
                self.state = None;
                Some(ThreadError::Exception(error))
            },
        }
    }

    /// Polls while waiting for the thread to report back; `received` is the
    /// outcome of polling the receiver. The sender is never dropped without
    /// sending, so the receiver never reports a closed channel.
    pub fn poll_package<P>(&mut self, received: Step<Option<P>>) -> (step: Step<Result<P, ThreadError<E>>>)
        requires
            old(self).state matches Some(RegisterState::Package),
            !(received matches Step::Ready(None)),
        ensures
            match received {
                Step::Ready(Some(p)) => step == Step::Ready(Ok::<P, ThreadError<E>>(p)) && final(self).state is None,
                _ => step is Pending && final(self).state matches Some(RegisterState::Package),
            },
    {
        match received {
            Step::Ready(Some(package)) => {
                self.state = None;
                Step::Ready(Ok(package))
            },
            _ => Step::Pending,
        }
    }

    /// Drops the registration: returns `true` if it has to be driven to its
    /// end in the background (it is still running and not an early error).
    pub fn drop_in_background(&mut self) -> (background: bool)
        ensures
            background == (old(self).state matches Some(s) && !(s is Error)),
            background ==> final(self).state == old(self).state,
            !background ==> final(self).state is None,
    {
        match &self.state {
            Some(RegisterState::Error(_)) => {
                self.state = None;
                false
            },
            Some(_) => true,
            None => false,
        }
    }
}

/// Implementation of the registration without the atomics target feature:
/// it only ever fails, with the error it was made with.
#[derive(Debug)]
pub struct UnsupportedRegisterThreadFuture<E> {
    /// The error, until polled.
    pub error: Option<ThreadError<E>>,
}

impl<E> UnsupportedRegisterThreadFuture<E> {
    /// Create a future that returns `error`.
    pub fn error(error: ThreadError<E>) -> (future: Self)
        ensures
            future.error == Some(error),
    {
        UnsupportedRegisterThreadFuture { error: Some(error) }
    }

    /// Polls: returns the error. Polling after completion is a panic, so it
    /// must not be.
    pub fn poll(&mut self) -> (step: Step<Result<(), ThreadError<E>>>)
        requires
            old(self).error is Some,
        ensures
            final(self).error is None,
            (old(self).error matches Some(e) && step == Step::Ready(Err::<(), ThreadError<E>>(e))),
    {
        let error = self.error.take().unwrap();
        Step::Ready(Err(error))
    }
}

} // verus!

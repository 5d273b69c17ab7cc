//! Audio worklets running Rust: their context, the object URLs of their
//! scripts (cached once made for the default module) and the steps of
//! adding Rust to them.

use vstd::prelude::*;

use crate::common::{Step, Tls};
use crate::worklet::builder::{claim_context, spec_claim, WorkletInitError};
use crate::worklet::module::ModuleType;

verus! {

/// Context of an audio worklet: its global scope `G` (an
/// `AudioWorkletGlobalScope`) and its ID.
#[derive(Debug)]
pub struct AudioWorkletContext<G> {
    /// The global scope.
    context: G,
    /// ID of the worklet.
    id: u64,
}

/// The context of the audio worklet, kept per thread.
#[derive(Debug)]
pub struct AudioWorkletBackup<G> {
    /// The context, once the worklet was initialized.
    pub context: Option<AudioWorkletContext<G>>,
}

impl<G> AudioWorkletBackup<G> {
    /// A thread that is not an audio worklet of this library.
    pub fn new() -> (backup: Self)
        ensures
            backup.context is None,
    {
        AudioWorkletBackup { context: None }
    }
}

impl<G> AudioWorkletContext<G> {
    /// The global scope.
    pub closed spec fn raw(&self) -> G {
        self.context
    }

    /// ID of the worklet.
    pub closed spec fn spec_id(&self) -> u64 {
        self.id
    }

    /// Initializes the context and backs it up for this thread. Setting a
    /// second context is a panic.
    pub fn init(context: G, id: u64, backup: &mut AudioWorkletBackup<G>) -> (worklet: Self)
        where G: Clone
        requires
            old(backup).context is None,
        ensures
            worklet.raw() == context,
            worklet.spec_id() == id,
            final(backup).context matches Some(b) && b.spec_id() == id
                && vstd::pervasive::cloned::<G>(context, b.raw()),
    {
        backup.context = Some(AudioWorkletContext { context: context.clone(), id });
        AudioWorkletContext { context, id }
    }

    /// Returns the context of the current audio worklet, or `None` if the
    /// current thread is not one initialized by this library.
    pub fn new(backup: &AudioWorkletBackup<G>) -> (worklet: Option<Self>)
        where G: Clone
        ensures
            match backup.context {
                Some(b) => worklet matches Some(w) && w.spec_id() == b.spec_id()
                    && vstd::pervasive::cloned::<G>(b.raw(), w.raw()),
                None => worklet is None,
            },
    {
        match &backup.context {
            Some(b) => Some(AudioWorkletContext { context: b.context.clone(), id: b.id }),
            None => None,
        }
    }

    /// The global scope.
    pub fn as_raw(&self) -> (raw: &G)
        ensures
            *raw == self.raw(),
    {
        &self.context
    }

    /// Consumes the context, returning the global scope.
    pub fn into_raw(self) -> (raw: G)
        ensures
            raw == self.raw(),
    {
        self.context
    }

    /// The TLS handle of this worklet.
    pub fn tls(&self, tls_base: u32, stack_alloc: u32) -> (tls: Tls)
        ensures
            tls.id == self.spec_id(),
            tls.tls_base == tls_base,
            tls.stack_alloc == stack_alloc,
    {
        Tls::new(self.id, tls_base, stack_alloc)
    }
}

/// Object URL of an audio worklet module script.
#[derive(Debug)]
pub struct AudioWorkletModule(pub String);

impl AudioWorkletModule {
    /// The pieces of the script for a module: the polyfill, the shim import
    /// or inlined shim, then the worklet script `body`.
    pub fn sequence(module: &ModuleType, body: &str) -> (sequence: Vec<String>)
        ensures
            match *module {
                ModuleType::Import { polyfill, imports } => sequence@.len() == 3
                    && sequence@[0]@ == polyfill@ && sequence@[1]@ == imports@ && sequence@[2]@ == body@,
                ModuleType::Inline { polyfill, shim, imports } => sequence@.len() == 4
                    && sequence@[0]@ == polyfill@ && sequence@[1]@ == shim@ && sequence@[2]@ == imports@
                    && sequence@[3]@ == body@,
            },
    {
        module.to_sequence(body)
    }

    /// Returns the object URL.
    pub fn as_raw(&self) -> (url: &str)
        ensures
            url@ == self.0@,
    {
        self.0.as_str()
    }
}

/// Object URL of an audio worklet script.
#[derive(Debug)]
pub struct AudioWorkletUrl(pub String);

impl AudioWorkletUrl {
    /// Returns the object URL.
    pub fn as_raw(&self) -> (url: &str)
        ensures
            url@ == self.0@,
    {
        self.0.as_str()
    }
}

/// Checks that Rust was not added to the context before and marks it.
pub fn init_wasm_internal(marker: &mut Option<bool>) -> (result: Result<(), WorkletInitError>)
    ensures
        (*final(marker), result is Ok) == spec_claim(*old(marker)),
{
    claim_context(marker)
}

/// State of [`AudioWorkletFuture`].
#[derive(Clone, Copy, Debug, PartialEq, Eq, Structural)]
pub enum AudioState {
    /// Waiting for the default module.
    Module,
    /// Waiting for `Worklet.addModule()`.
    Add,
}

/// What to do after the module is known.
#[derive(Debug)]
pub enum ModuleReady<M, E> {
    /// Still waiting.
    Pending,
    /// Call `Worklet.addModule()` with this module's URL.
    AddModule(M),
    /// Making the module failed: adding fails with this error.
    Failed(E),
}

/// Adding Rust to an audio worklet. `None` once finished.
#[derive(Debug)]
pub struct AudioWorkletFuture {
    /// Current state.
    pub state: Option<AudioState>,
}

impl AudioWorkletFuture {
    /// Starts with the default module, after the check passed.
    pub fn init_wasm(marker: &mut Option<bool>) -> (result: Result<Self, WorkletInitError>)
        ensures
            (*final(marker), result is Ok) == spec_claim(*old(marker)),
            result matches Ok(f) ==> f.state == Some(AudioState::Module),
    {
        init_wasm_internal(marker)?;
        Ok(AudioWorkletFuture { state: Some(AudioState::Module) })
    }

    /// Starts with a given module, after the check passed; the caller called
    /// `Worklet.addModule()`.
    pub fn init_wasm_with_module(marker: &mut Option<bool>) -> (result: Result<Self, WorkletInitError>)
        ensures
            (*final(marker), result is Ok) == spec_claim(*old(marker)),
            result matches Ok(f) ==> f.state == Some(AudioState::Add),
    {
        init_wasm_internal(marker)?;
        Ok(AudioWorkletFuture { state: Some(AudioState::Add) })
    }

    /// Polls while waiting for the module.
    pub fn poll_module<M, E>(&mut self, module: Step<Result<M, E>>) -> (outcome: ModuleReady<M, E>)
        requires
            old(self).state == Some(AudioState::Module),
        ensures
            match module {
                Step::Pending => outcome is Pending && final(self).state == old(self).state,
                Step::Ready(Ok(m)) => outcome == ModuleReady::<M, E>::AddModule(m) && final(self).state == Some(AudioState::Add),
                Step::Ready(Err(e)) => outcome == ModuleReady::<M, E>::Failed(e) && final(self).state is None,
            },
    {
        match module {
            Step::Pending => ModuleReady::Pending,
            Step::Ready(Ok(module)) => {
                self.state = Some(AudioState::Add);
                ModuleReady::AddModule(module)
            },
            Step::Ready(Err(error)) => {
                self.state = None;
                ModuleReady::Failed(error)
            },
        }
    }

    /// Polls while `Worklet.addModule()` loads; `added` is whether it
    /// finished (its failing is a panic). Once loaded the caller
    /// creates the node that runs the task.
    pub fn poll_add(&mut self, added: bool) -> (step: Step<()>)
        requires
            old(self).state == Some(AudioState::Add),
        ensures
            added ==> step == Step::Ready(()) && final(self).state is None,
            !added ==> step is Pending && final(self).state == old(self).state,
    {
        if added {
            self.state = None;
            Step::Ready(())
        } else {
            Step::Pending
        }
    }

    /// Returns [`true`] once finished.
    pub fn is_terminated(&self) -> (terminated: bool)
        ensures
            terminated == self.state is None,
    {
        self.state.is_none()
    }
}

/// The default audio worklet module or URL, once made.
#[derive(Debug)]
pub struct DefaultObject<T> {
    /// The cached value.
    pub value: Option<T>,
}

/// Waits for the default module to be made, then makes (or takes from the
/// cache) its object.
#[derive(Debug)]
pub struct DefaultObjectFuture {
    /// `false` once finished.
    pub running: bool,
}

impl DefaultObjectFuture {
    /// First step of polling: returns `true` if the object is cached, which
    /// ends the wait. Polling after completion is a panic.
    pub fn poll_cached<T>(&mut self, cache: &DefaultObject<T>) -> (cached: bool)
        requires
            old(self).running,
        ensures
            cached == cache.value is Some,
            final(self).running == !cached,
    {
        if cache.value.is_some() {
            self.running = false;
            true
        } else {
            false
        }
    }

    /// Polls the module future: a made module is handed out, to be turned
    /// into the object and stored with [`DefaultObjectFuture::store()`].
    pub fn poll_module<M, E>(&mut self, module: Step<Result<M, E>>) -> (outcome: ModuleReady<M, E>)
        requires
            old(self).running,
        ensures
            match module {
                Step::Pending => outcome is Pending && final(self).running,
                Step::Ready(Ok(m)) => outcome == ModuleReady::<M, E>::AddModule(m) && !final(self).running,
                Step::Ready(Err(e)) => outcome == ModuleReady::<M, E>::Failed(e) && !final(self).running,
            },
    {
        match module {
            Step::Pending => ModuleReady::Pending,
            Step::Ready(Ok(module)) => {
                self.running = false;
                ModuleReady::AddModule(module)
            },
            Step::Ready(Err(error)) => {
                self.running = false;
                ModuleReady::Failed(error)
            },
        }
    }
}

/// Stores a made object in the cache unless one is there already; the one
/// in the cache is the one handed out.
pub fn store<T>(cache: &mut DefaultObject<T>, made: T)
    ensures
        old(cache).value is Some ==> final(cache).value == old(cache).value,
        old(cache).value is None ==> final(cache).value == Some(made),
{
    if cache.value.is_none() {
        cache.value = Some(made);
    }
}

} // verus!

//! Context of a worker, available inside it.

use vstd::prelude::*;

use crate::common::Tls;

verus! {

/// Message handler installed on a global scope or port: a plain callback,
/// or one that returns a future to run.
#[derive(Debug)]
pub enum MessageHandler<C, F> {
    /// Plain callback.
    Classic(C),
    /// Callback returning a future.
    Future(F),
}

/// The message handler of the current thread, if any.
#[derive(Debug)]
pub struct HandlerSlot<C, F> {
    /// The installed handler.
    pub handler: Option<MessageHandler<C, F>>,
}

impl<C, F> HandlerSlot<C, F> {
    /// No handler installed.
    pub fn new() -> (slot: Self)
        ensures
            slot.handler is None,
    {
        HandlerSlot { handler: None }
    }
}

/// The context of the worker, kept per thread so that
/// [`WorkerContext::new()`] can hand out copies of it.
#[derive(Debug)]
pub struct ContextBackup<G> {
    /// The context, once the worker was initialized.
    pub context: Option<WorkerContext<G>>,
}

impl<G> ContextBackup<G> {
    /// A thread that is not a worker of this library.
    pub fn new() -> (backup: Self)
        ensures
            backup.context is None,
    {
        ContextBackup { context: None }
    }
}

/// Context of a worker: its global scope `G` (a
/// `DedicatedWorkerGlobalScope`), its ID and its name.
#[derive(Debug)]
pub struct WorkerContext<G> {
    /// The global scope.
    context: G,
    /// ID of the worker.
    id: u64,
    /// Name of the global scope (empty if none).
    name: String,
}

impl<G> WorkerContext<G> {
    /// The global scope.
    pub closed spec fn raw(&self) -> G {
        self.context
    }

    /// ID of the worker.
    pub closed spec fn spec_id(&self) -> u64 {
        self.id
    }

    /// Name of the global scope.
    pub closed spec fn raw_name(&self) -> Seq<char> {
        self.name@
    }

    /// Initializes the context of a newly started worker and backs it up for
    /// this thread. Setting a second context is a panic, so none may be
    /// set yet.
    pub fn init(context: G, id: u64, name: String, backup: &mut ContextBackup<G>) -> (worker: Self)
        where G: Clone
        requires
            old(backup).context is None,
        ensures
            worker.raw() == context,
            worker.spec_id() == id,
            worker.raw_name() == name@,
            final(backup).context matches Some(b) && b.spec_id() == id && b.raw_name() == name@
                && vstd::pervasive::cloned::<G>(context, b.raw()),
    {
        let copy = WorkerContext { context: context.clone(), id, name: name.clone() };
        backup.context = Some(copy);
        WorkerContext { context, id, name }
    }

    /// Returns the context of the current worker, or `None` if the current
    /// thread is not a worker spawned by this library. The global scope is a
    /// clone of the backed up one.
    pub fn new(backup: &ContextBackup<G>) -> (worker: Option<Self>)
        where G: Clone
        ensures
            match backup.context {
                Some(b) => worker matches Some(w) && w.spec_id() == b.spec_id() && w.raw_name() == b.raw_name()
                    && vstd::pervasive::cloned::<G>(b.raw(), w.raw()),
                None => worker is None,
            },
    {
        match &backup.context {
            Some(b) => Some(WorkerContext { context: b.context.clone(), id: b.id, name: b.name.clone() }),
            None => None,
        }
    }

    /// The global scope of the worker.
    pub fn as_raw(&self) -> (raw: &G)
        ensures
            *raw == self.raw(),
    {
        &self.context
    }

    /// Consumes the context, returning the global scope.
    pub fn into_raw(self) -> (raw: G)
        ensures
            raw == self.raw(),
    {
        self.context
    }

    /// The name of the worker: `None` if it has none (an empty name).
    pub fn name(&self) -> (name: Option<String>)
        ensures
            self.raw_name().len() == 0 ==> name is None,
            self.raw_name().len() != 0 ==> (name matches Some(n) && n@ == self.raw_name()),
    {
        if self.name.as_str().is_empty() {
            None
        } else {
            Some(self.name.clone())
        }
    }

    /// Returns [`true`] if this thread has a message handler.
    pub fn has_message_handler<C, F>(&self, slot: &HandlerSlot<C, F>) -> (has: bool)
        ensures
            has == slot.handler is Some,
    {
        slot.handler.is_some()
    }

    /// Removes the message handler; the caller also clears `onmessage`.
    pub fn clear_message_handler<C, F>(&self, slot: &mut HandlerSlot<C, F>)
        ensures
            final(slot).handler is None,
    {
        slot.handler = None;
    }

    /// Installs a plain message handler, replacing any other; the caller
    /// sets it as `onmessage`.
    pub fn set_message_handler<C, F>(&self, slot: &mut HandlerSlot<C, F>, handler: C)
        ensures
            final(slot).handler == Some(MessageHandler::<C, F>::Classic(handler)),
    {
        slot.handler = Some(MessageHandler::Classic(handler));
    }

    /// Installs a message handler returning futures, replacing any other;
    /// the caller sets it as `onmessage`.
    pub fn set_message_handler_async<C, F>(&self, slot: &mut HandlerSlot<C, F>, handler: F)
        ensures
            final(slot).handler == Some(MessageHandler::<C, F>::Future(handler)),
    {
        slot.handler = Some(MessageHandler::Future(handler));
    }

    /// The TLS handle of this worker, from the base addresses of its TLS and
    /// stack memory.
    pub fn tls(&self, tls_base: u32, stack_alloc: u32) -> (tls: Tls)
        ensures
            tls.id == self.spec_id(),
            tls.tls_base == tls_base,
            tls.stack_alloc == stack_alloc,
    {
        Tls::new(self.id, tls_base, stack_alloc)
    }

    /// ID of the worker.
    pub fn id(&self) -> (id: u64)
        ensures
            id == self.spec_id(),
    {
        self.id
    }
}

} // verus!

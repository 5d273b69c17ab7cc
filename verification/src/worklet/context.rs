//! Context of a worklet, available inside it.

use vstd::prelude::*;

use crate::common::Tls;
use crate::worker::context::{HandlerSlot, MessageHandler};

verus! {

/// The context of the worklet, kept per thread so that
/// [`WorkletContext::new()`] can hand out copies of it.
#[derive(Debug)]
pub struct WorkletBackup<G, P> {
    /// The context, once the worklet was initialized.
    pub context: Option<WorkletContext<G, P>>,
}

impl<G, P> WorkletBackup<G, P> {
    /// A thread that is not a worklet of this library.
    pub fn new() -> (backup: Self)
        ensures
            backup.context is None,
    {
        WorkletBackup { context: None }
    }
}

/// Context of a worklet: its global scope `G` (an
/// `AudioWorkletGlobalScope`), its processor `P` (an
/// `AudioWorkletProcessor`) and its ID.
#[derive(Debug)]
pub struct WorkletContext<G, P> {
    /// The global scope.
    context: G,
    /// The processor.
    this: P,
    /// ID of the worklet.
    id: u64,
}

impl<G, P> WorkletContext<G, P> {
    /// The global scope.
    pub closed spec fn raw_context(&self) -> G {
        self.context
    }

    /// The processor.
    pub closed spec fn raw_processor(&self) -> P {
        self.this
    }

    /// ID of the worklet.
    pub closed spec fn spec_id(&self) -> u64 {
        self.id
    }

    /// Initializes the context of a newly started worklet and backs it up
    /// for this thread; a message handler handed over by the builder is
    /// installed. Setting a second context is a panic.
    pub fn init<C, F>(
        context: G,
        this: P,
        id: u64,
        message_handler: Option<MessageHandler<C, F>>,
        backup: &mut WorkletBackup<G, P>,
        slot: &mut HandlerSlot<C, F>,
    ) -> (worklet: Self)
        where G: Clone, P: Clone
        requires
            old(backup).context is None,
        ensures
            worklet.raw_context() == context,
            worklet.raw_processor() == this,
            worklet.spec_id() == id,
            final(backup).context matches Some(b) && b.spec_id() == id
                && vstd::pervasive::cloned::<G>(context, b.raw_context())
                && vstd::pervasive::cloned::<P>(this, b.raw_processor()),
            message_handler is Some ==> final(slot).handler == message_handler,
            message_handler is None ==> final(slot).handler == old(slot).handler,
    {
        let copy = WorkletContext { context: context.clone(), this: this.clone(), id };
        backup.context = Some(copy);
        if let Some(handler) = message_handler {
            slot.handler = Some(handler);
        }
        WorkletContext { context, this, id }
    }

    /// Returns the context of the current worklet, or `None` if the current
    /// thread is not a worklet initialized by this library. Its values are
    /// clones of the backed up ones.
    pub fn new(backup: &WorkletBackup<G, P>) -> (worklet: Option<Self>)
        where G: Clone, P: Clone
        ensures
            match backup.context {
                Some(b) => worklet matches Some(w) && w.spec_id() == b.spec_id()
                    && vstd::pervasive::cloned::<G>(b.raw_context(), w.raw_context())
                    && vstd::pervasive::cloned::<P>(b.raw_processor(), w.raw_processor()),
                None => worklet is None,
            },
    {
        match &backup.context {
            Some(b) => Some(WorkletContext { context: b.context.clone(), this: b.this.clone(), id: b.id }),
            None => None,
        }
    }

    /// The global scope and the processor of the worklet.
    pub fn as_raw(&self) -> (raw: (&G, &P))
        ensures
            *raw.0 == self.raw_context(),
            *raw.1 == self.raw_processor(),
    {
        (&self.context, &self.this)
    }

    /// Consumes the context, returning the global scope and the processor.
    pub fn into_raw(self) -> (raw: (G, P))
        ensures
            raw.0 == self.raw_context(),
            raw.1 == self.raw_processor(),
    {
        (self.context, self.this)
    }

    /// Returns [`true`] if this thread has a message handler.
    pub fn has_message_handler<C, F>(&self, slot: &HandlerSlot<C, F>) -> (has: bool)
        ensures
            has == slot.handler is Some,
    {
        slot.handler.is_some()
    }

    /// Removes the message handler; the caller also clears `onmessage` of
    /// the port.
    pub fn clear_message_handler<C, F>(&self, slot: &mut HandlerSlot<C, F>)
        ensures
            final(slot).handler is None,
    {
        slot.handler = None;
    }

    /// Installs a plain message handler on the port, replacing any other.
    pub fn set_message_handler<C, F>(&self, slot: &mut HandlerSlot<C, F>, handler: C)
        ensures
            final(slot).handler == Some(MessageHandler::<C, F>::Classic(handler)),
    {
        slot.handler = Some(MessageHandler::Classic(handler));
    }

    /// Installs a message handler returning futures on the port, replacing
    /// any other.
    pub fn set_message_handler_async<C, F>(&self, slot: &mut HandlerSlot<C, F>, handler: F)
        ensures
            final(slot).handler == Some(MessageHandler::<C, F>::Future(handler)),
    {
        slot.handler = Some(MessageHandler::Future(handler));
    }

    /// The TLS handle of this worklet.
    pub fn tls(&self, tls_base: u32, stack_alloc: u32) -> (tls: Tls)
        ensures
            tls.id == self.spec_id(),
            tls.tls_base == tls_base,
            tls.stack_alloc == stack_alloc,
    {
        Tls::new(self.id, tls_base, stack_alloc)
    }

    /// ID of the worklet.
    pub fn id(&self) -> (id: u64)
        ensures
            id == self.spec_id(),
    {
        self.id
    }
}

} // verus!

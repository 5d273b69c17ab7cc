//! Building and spawning workers: their options, their IDs and how the
//! initial message is posted.

use vstd::prelude::*;

use crate::common::IdCounter;
use crate::thread::spawn::WorkerOptionsModel;

verus! {

/// Messages handed to a worker when it is spawned.
#[derive(Clone, Copy, Debug, PartialEq, Eq, Structural)]
pub enum RawMessages {
    /// No message.
    Empty,
    /// One message, transferred.
    Single,
    /// An array of messages, transferred.
    Array,
}

/// How the initial message of a worker is posted.
#[derive(Clone, Copy, Debug, PartialEq, Eq, Structural)]
pub enum InitPost {
    /// Without transfer list; this can't fail.
    Plain,
    /// With the single message as transfer list.
    TransferSingle,
    /// With the array of messages as transfer list.
    TransferArray,
}

/// How a worker is constructed.
#[derive(Debug)]
pub enum CreateWorker {
    /// `new Worker(url)`.
    Plain,
    /// `new Worker(url, options)` with these options.
    WithOptions(WorkerOptionsModel),
}

/// Builder of a worker.
#[derive(Debug)]
pub struct WorkerBuilder {
    /// Options, if any were needed.
    pub options: Option<WorkerOptionsModel>,
    /// ID state shared with the worker's handles: the worker's ID once
    /// spawned.
    pub id: Option<u64>,
    /// A message handler was set for the worker's messages.
    pub has_message_handler: bool,
}

impl WorkerBuilder {
    /// Creates a builder for a script at a URL; module scripts need the
    /// module worker type.
    pub fn new_with_url(is_module: bool) -> (builder: Self)
        ensures
            is_module ==> (builder.options matches Some(o) && o.module && o.name is None),
            !is_module ==> builder.options is None,
            builder.id is None,
            !builder.has_message_handler,
    {
        let options = if is_module {
            Some(WorkerOptionsModel { module: true, name: None })
        } else {
            None
        };
        WorkerBuilder { options, id: None, has_message_handler: false }
    }

    /// Names the worker; creates default (classic) options if there were
    /// none.
    pub fn name(self, name: &str) -> (builder: Self)
        ensures
            builder.options matches Some(o) && (o.name matches Some(n) && n@ == name@)
                && o.module == (self.options matches Some(old_options) && old_options.module),
            builder.id == self.id,
            builder.has_message_handler == self.has_message_handler,
    {
        let module = match &self.options {
            Some(options) => options.module,
            None => false,
        };
        WorkerBuilder {
            options: Some(WorkerOptionsModel { module, name: Some(name.to_owned()) }),
            id: self.id,
            has_message_handler: self.has_message_handler,
        }
    }

    /// Records that a message handler was set.
    pub fn message_handler(self) -> (builder: Self)
        ensures
            builder.has_message_handler,
            builder.id == self.id,
            builder.options == self.options,
    {
        WorkerBuilder { options: self.options, id: self.id, has_message_handler: true }
    }

    /// Starts spawning: takes the next ID and stores it as the ID state the
    /// builder shares with the worker's handles, and says how to construct
    /// the worker (the options are handed over) and whether the builder's
    /// message handler goes on the worker.
    pub fn spawn_internal(&mut self, counter: &mut IdCounter) -> (result: (u64, CreateWorker, bool))
        ensures
            result.0 == old(counter).next,
            final(counter).next == crate::common::next_id(old(counter).next),
            final(self).id == Some(result.0),
            match old(self).options {
                Some(o) => result.1 == CreateWorker::WithOptions(o),
                None => result.1 is Plain,
            },
            final(self).options is None,
            result.2 == old(self).has_message_handler,
            final(self).has_message_handler == old(self).has_message_handler,
    {
        let id = counter.fetch_add();
        self.id = Some(id);
        let mut options = None;
        std::mem::swap(&mut options, &mut self.options);
        let create = match options {
            Some(options) => CreateWorker::WithOptions(options),
            None => CreateWorker::Plain,
        };
        (id, create, self.has_message_handler)
    }
}

/// How the initial message is posted, by the messages handed over.
pub fn init_post(messages: Option<RawMessages>) -> (post: InitPost)
    ensures
        post == match messages {
            Some(RawMessages::Single) => InitPost::TransferSingle,
            Some(RawMessages::Array) => InitPost::TransferArray,
            _ => InitPost::Plain,
        },
{
    match messages {
        Some(RawMessages::Single) => InitPost::TransferSingle,
        Some(RawMessages::Array) => InitPost::TransferArray,
        _ => InitPost::Plain,
    }
}

/// Outcome of posting the initial message: if it failed, the data handed to
/// the worker is dropped again and the error returned. A plain post is not
/// expected to fail (that is a panic).
pub fn spawn_outcome<W, E>(post: InitPost, posted: Result<(), E>, worker: W) -> (result: Result<W, E>)
    requires
        post == InitPost::Plain ==> posted is Ok,
    ensures
        match posted {
            Ok(()) => result == Ok::<W, E>(worker),
            Err(e) => result == Err::<W, E>(e),
        },
{
    match posted {
        Ok(()) => Ok(worker),
        Err(error) => Err(error),
    }
}

} // verus!

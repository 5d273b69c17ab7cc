//! Handling of the messages workers post to the window.

use vstd::prelude::*;

use crate::window::track::{Id, Workers};

verus! {

/// Message sent to the window.
#[derive(Debug)]
pub enum Message<C> {
    /// Asks the window to spawn a worker with this ID and context.
    Spawn { id: Id, context: C },
    /// Asks the window to terminate a worker.
    Terminate(Id),
    /// Asks the window to delete this worker from the list.
    Close(Id),
}

/// What the window does for a message.
#[derive(Debug)]
pub enum MessageAction<C> {
    /// Spawn a worker from the window.
    Spawn { id: Id, context: C },
    /// Terminate this worker.
    Terminate(u64),
    /// Warn that an unknown worker ID closed.
    WarnUnknown,
    /// Nothing to do.
    Nothing,
}

/// Handles a message posted to the window.
pub fn handle_message<C>(workers: &mut Workers, message: Message<C>) -> (action: MessageAction<C>)
    ensures
        match message {
            Message::Spawn { id, context } => action == MessageAction::Spawn { id, context }
                && final(workers).entries() == old(workers).entries(),
            Message::Terminate(id) => final(workers).entries() == old(workers).entries().remove(id.0)
                && if old(workers).entries().contains_key(id.0) {
                    action == MessageAction::<C>::Terminate(old(workers).entries()[id.0])
                } else {
                    action is Nothing
                },
            Message::Close(id) => final(workers).entries() == old(workers).entries().remove(id.0)
                && if old(workers).entries().contains_key(id.0) {
                    action is Nothing
                } else {
                    action is WarnUnknown
                },
        },
{
    match message {
        Message::Spawn { id, context } => MessageAction::Spawn { id, context },
        Message::Terminate(id) => match workers.remove(id) {
            Some(worker) => MessageAction::Terminate(worker),
            None => MessageAction::Nothing,
        },
        Message::Close(id) => match workers.remove(id) {
            Some(_) => MessageAction::Nothing,
            None => MessageAction::WarnUnknown,
        },
    }
}

} // verus!

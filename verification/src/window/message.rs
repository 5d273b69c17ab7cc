//! Messages sent to the window, and how the window handles them.

use vstd::prelude::*;

use crate::window::track::{Id, Workers};

verus! {

/// Message sent to the window.
#[derive(Debug)]
pub enum WindowMessage<T> {
    /// Asks the window to spawn a worker under this ID.
    Spawn { id: Id, task: T },
    /// Asks the window to terminate a worker.
    Terminate(Id),
    /// Asks the window to delete this worker from the list.
    Finished(Id),
}

/// What the window does for a message.
#[derive(Debug)]
pub enum WindowAction<T> {
    /// Spawn a worker from the window.
    Spawn { id: Id, task: T },
    /// Terminate this worker.
    Terminate(u64),
    /// Warn that an unknown worker ID finished.
    WarnUnknown,
    /// Nothing to do.
    Nothing,
}

/// Handles a message in the window: spawns are carried out, terminated and
/// finished workers are removed from the list (a terminated one that is
/// found is terminated, a finished one that is not found is warned about).
pub fn handle_window_message<T>(workers: &mut Workers, message: WindowMessage<T>) -> (action: WindowAction<T>)
    ensures
        match message {
            WindowMessage::Spawn { id, task } => action == WindowAction::Spawn { id, task }
                && final(workers).entries() == old(workers).entries(),
            WindowMessage::Terminate(id) => final(workers).entries() == old(workers).entries().remove(id.0)
                && if old(workers).entries().contains_key(id.0) {
                    action == WindowAction::<T>::Terminate(old(workers).entries()[id.0])
                } else {
                    action is Nothing
                },
            WindowMessage::Finished(id) => final(workers).entries() == old(workers).entries().remove(id.0)
                && if old(workers).entries().contains_key(id.0) {
                    action is Nothing
                } else {
                    action is WarnUnknown
                },
        },
{
    match message {
        WindowMessage::Spawn { id, task } => WindowAction::Spawn { id, task },
        WindowMessage::Terminate(id) => match workers.remove(id) {
            Some(worker) => WindowAction::Terminate(worker),
            None => WindowAction::Nothing,
        },
        WindowMessage::Finished(id) => match workers.remove(id) {
            Some(_) => WindowAction::Nothing,
            None => WindowAction::WarnUnknown,
        },
    }
}

/// Name of the kind of a task, as its debug output shows it.
pub fn task_kind_name(is_future: bool) -> (name: String)
    ensures
        is_future ==> name@ == "Future"@,
        !is_future ==> name@ == "Closure"@,
{
    if is_future {
        String::from_str("Future")
    } else {
        String::from_str("Closure")
    }
}

} // verus!

//! Spawning threads: where a spawn is carried out, how its message is
//! posted, and the main thread's table of running workers.

use std::collections::HashMap;
use vstd::prelude::*;

use crate::thread::global::{GlobalKind, ThreadError};

verus! {

broadcast use vstd::std_specs::hash::group_hash_axioms;

/// Options a worker is created with.
#[derive(Debug)]
pub struct WorkerOptionsModel {
    /// Load the script as a module (`WorkerType::Module`).
    pub module: bool,
    /// Name of the worker, if set.
    pub name: Option<String>,
}

/// The options of a worker spawned for a thread: a module worker, named
/// after the thread if it has a name.
pub fn worker_options(name: Option<&str>) -> (options: WorkerOptionsModel)
    ensures
        options.module,
        match name {
            Some(n) => options.name matches Some(o) && o@ == n@,
            None => options.name is None,
        },
{
    let name = match name {
        Some(name) => Some(name.to_owned()),
        None => None,
    };
    WorkerOptionsModel { module: true, name }
}

/// Where a spawn without a message is carried out.
#[derive(Clone, Copy, Debug, PartialEq, Eq, Structural)]
pub enum SpawnRoute {
    /// On this thread, which is the main thread: initialize it, then spawn.
    Here,
    /// Send a command to the main thread, which spawns.
    Command,
}

/// Spawns on the main thread directly, else sends the spawn to it.
pub fn spawn_route(is_main_thread: bool) -> (route: SpawnRoute)
    ensures
        route == (if is_main_thread {
            SpawnRoute::Here
        } else {
            SpawnRoute::Command
        }),
{
    if is_main_thread {
        SpawnRoute::Here
    } else {
        SpawnRoute::Command
    }
}

/// Port through which a nested thread sends the serialized message of a
/// spawn to the main thread.
#[derive(Clone, Copy, Debug, PartialEq, Eq, Structural)]
pub enum MessagePort {
    /// The global scope of a dedicated worker.
    DedicatedWorker,
    /// The message port of an audio worklet.
    AudioWorklet,
}

/// Where a spawn with a message is carried out.
#[derive(Clone, Copy, Debug, PartialEq, Eq, Structural)]
pub enum MessageSpawnRoute {
    /// The message needs no serialization: spawn as without a message.
    WithoutMessage,
    /// On this thread, which is the main thread.
    Here,
    /// Send the spawn to the main thread, and the serialized message through
    /// this port.
    Nested(MessagePort),
}

/// Where a spawn with a message is carried out. Only threads spawned by
/// this library spawn from outside the main thread: dedicated workers and
/// audio worklets.
pub fn message_spawn_route(has_serialize: bool, is_main_thread: bool, global: Option<GlobalKind>) -> (route: MessageSpawnRoute)
    requires
        has_serialize && !is_main_thread ==> global == Some(GlobalKind::Dedicated) || global == Some(GlobalKind::Worklet),
    ensures
        !has_serialize ==> route == MessageSpawnRoute::WithoutMessage,
        has_serialize && is_main_thread ==> route == MessageSpawnRoute::Here,
        has_serialize && !is_main_thread && global == Some(GlobalKind::Dedicated) ==> route == MessageSpawnRoute::Nested(MessagePort::DedicatedWorker),
        has_serialize && !is_main_thread && global == Some(GlobalKind::Worklet) ==> route == MessageSpawnRoute::Nested(MessagePort::AudioWorklet),
{
    if !has_serialize {
        MessageSpawnRoute::WithoutMessage
    } else if is_main_thread {
        MessageSpawnRoute::Here
    } else {
        match global {
            Some(GlobalKind::Dedicated) => MessageSpawnRoute::Nested(MessagePort::DedicatedWorker),
            _ => MessageSpawnRoute::Nested(MessagePort::AudioWorklet),
        }
    }
}

/// How a message is posted.
#[derive(Clone, Copy, Debug, PartialEq, Eq, Structural)]
pub enum PostKind {
    /// `postMessage()` without a transfer list.
    Plain,
    /// `postMessage()` with the transfer list.
    WithTransfer,
}

/// A message with a transfer list is posted with it.
pub fn post_kind(has_transfer: bool) -> (kind: PostKind)
    ensures
        kind == (if has_transfer {
            PostKind::WithTransfer
        } else {
            PostKind::Plain
        }),
{
    if has_transfer {
        PostKind::WithTransfer
    } else {
        PostKind::Plain
    }
}

/// Outcome of sending a serialized message to the main thread: if posting
/// failed, an empty message is posted in its place (`true` in the result) so
/// the main thread does not wait for it, and the exception is returned.
pub fn send_message_outcome<E>(posted: Result<(), E>) -> (outcome: (bool, Result<(), ThreadError<E>>))
    ensures
        match posted {
            Ok(()) => !outcome.0 && outcome.1 is Ok,
            Err(e) => outcome.0 && outcome.1 == Err::<(), ThreadError<E>>(ThreadError::Exception(e)),
        },
{
    match posted {
        Ok(()) => (false, Ok(())),
        Err(error) => (true, Err(ThreadError::Exception(error))),
    }
}

/// Running workers of the main thread, by thread ID. The value is the
/// handle by which the caller finds the browser's worker object.
pub struct ThreadWorkers {
    /// The workers.
    pub map: HashMap<u64, u64>,
}

impl ThreadWorkers {
    /// The workers, by thread ID.
    pub open spec fn entries(&self) -> Map<u64, u64> {
        self.map@
    }

    /// No worker is running.
    pub fn new() -> (workers: Self)
        ensures
            workers.entries().is_empty(),
    {
        ThreadWorkers { map: HashMap::new() }
    }

    /// Records a worker spawned for thread `id`, once its task was posted
    /// (`posted`). If posting failed the worker is not recorded and the
    /// exception is returned. Returns whether a worker was recorded for the
    /// same thread before, which never happens.
    pub fn spawned<E>(&mut self, id: u64, worker: u64, posted: Result<(), E>) -> (result: Result<bool, ThreadError<E>>)
        ensures
            match posted {
                Ok(()) => final(self).entries() == old(self).entries().insert(id, worker)
                    && result == Ok::<bool, ThreadError<E>>(old(self).entries().contains_key(id)),
                Err(e) => final(self).entries() == old(self).entries()
                    && result == Err::<bool, ThreadError<E>>(ThreadError::Exception(e)),
            },
    {
        match posted {
            Err(error) => Err(ThreadError::Exception(error)),
            Ok(()) => {
                let previous = self.map.insert(id, worker);
                Ok(previous.is_some())
            },
        }
    }

    /// Takes the worker of a finished thread out, to terminate it. A
    /// missing worker is a panic, so it must be there.
    pub fn terminated(&mut self, id: u64) -> (worker: u64)
        requires
            old(self).entries().contains_key(id),
        ensures
            worker == old(self).entries()[id],
            final(self).entries() == old(self).entries().remove(id),
    {
        self.map.remove(&id).unwrap()
    }
}

/// A worker recorded for a thread is what its termination takes out, and
/// afterwards the table is as before.
pub proof fn lemma_spawn_then_terminate(before: Map<u64, u64>, id: u64, worker: u64)
    requires
        !before.contains_key(id),
    ensures
        before.insert(id, worker).contains_key(id),
        before.insert(id, worker)[id] == worker,
        before.insert(id, worker).remove(id) == before,
{
    assert(before.insert(id, worker).remove(id) =~= before);
}

/// Command sent to the main thread.
#[derive(Debug)]
pub enum Command<S, M> {
    /// Spawn a new thread with this spawn data.
    Spawn(S),
    /// Terminate thread `id` once it left its execution block, then release
    /// its memory.
    Terminate { id: u64, memory: M },
    /// Destroy the memory of an audio worklet thread.
    Destroy(M),
}

/// What the main thread does for a command.
#[derive(Debug)]
pub enum MainAction<S, M> {
    /// Spawn a worker with this spawn data.
    Spawn(S),
    /// Wait until the thread left its execution block, release its memory,
    /// then terminate the worker it ran on.
    WaitThenTerminate { id: u64, memory: M },
    /// Destroy the memory.
    Destroy(M),
}

/// Handling of commands by the main thread.
pub fn handle_command<S, M>(command: Command<S, M>) -> (action: MainAction<S, M>)
    ensures
        match command {
            Command::Spawn(s) => action == MainAction::<S, M>::Spawn(s),
            Command::Terminate { id, memory } => action == MainAction::<S, M>::WaitThenTerminate { id, memory },
            Command::Destroy(m) => action == MainAction::<S, M>::Destroy(m),
        },
{
    match command {
        Command::Spawn(data) => MainAction::Spawn(data),
        Command::Terminate { id, memory } => MainAction::WaitThenTerminate { id, memory },
        Command::Destroy(memory) => MainAction::Destroy(memory),
    }
}

/// Where the memory of a finished thread is destroyed: on the main thread
/// directly, else through a command to it. Sending needs the main thread's
/// handler to be initialized.
pub fn destroy_route(is_main_thread: bool, handler_initialized: bool) -> (direct: bool)
    requires
        !is_main_thread ==> handler_initialized,
    ensures
        direct == is_main_thread,
{
    is_main_thread
}

/// Marks that the calling thread created its memory handle. A second one
/// is a panic, so it must not have one yet.
pub fn claim_thread_memory(created: &mut bool)
    requires
        !*old(created),
    ensures
        *final(created),
{
    *created = true;
}

/// What the main thread does with a message from a nested thread that
/// spawns: the spawn data sent before must be there (anything else is a
/// panic). An undefined message means posting failed on the other side:
/// nothing is spawned. Else the serialized value must be the first entry of
/// the message (anything else is a panic); the transfer list, if any,
/// the second.
pub fn nested_spawn(data_received: bool, message_undefined: bool, entries: usize) -> (spawn: bool)
    requires
        data_received,
        !message_undefined ==> entries >= 1,
    ensures
        spawn == !message_undefined,
{
    !message_undefined
}

/// Whether the nested spawn message carries a transfer list.
pub fn nested_has_transfer(entries: usize) -> (transfer: bool)
    ensures
        transfer == (entries >= 2),
{
    entries >= 2
}

} // verus!

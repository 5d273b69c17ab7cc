//! Type of the thread's global context, and the decisions that depend on it.

use vstd::prelude::*;

verus! {

/// Type of the global context of a thread.
#[derive(Clone, Copy, Debug, PartialEq, Eq, Structural)]
pub enum GlobalKind {
    /// `Window`.
    Window,
    /// `DedicatedWorkerGlobalScope`.
    Dedicated,
    /// `SharedWorkerGlobalScope`.
    Shared,
    /// `ServiceWorkerGlobalScope`.
    Service,
    /// Any other `WorkerGlobalScope`.
    Worker,
    /// Worklet.
    Worklet,
}

/// Kind of an error, as `std::io::ErrorKind` names it.
#[derive(Clone, Copy, Debug, PartialEq, Eq, Structural)]
pub enum ErrorKind {
    /// `ErrorKind::Unsupported`.
    Unsupported,
    /// `ErrorKind::AlreadyExists`.
    AlreadyExists,
    /// `ErrorKind::Other`.
    Other,
}

/// Errors of thread operations. `E` is the type of an exception thrown by
/// the browser.
#[derive(Debug)]
pub enum ThreadError<E> {
    /// The calling thread is of a type that is not supported.
    UnsupportedThread,
    /// The operation is not supported in worklets.
    UnsupportedInWorklet,
    /// Spawning needs the atomics target feature.
    NoAtomics,
    /// Spawning needs the atomics target feature and cross-origin isolation.
    NoSpawnSupport,
    /// The `BaseAudioContext` is closed.
    ContextClosed,
    /// The `BaseAudioContext` already registered a thread.
    AlreadyRegistered,
    /// The browser threw an exception.
    Exception(E),
}

/// The error kind of each [`ThreadError`].
pub open spec fn spec_error_kind<E>(error: ThreadError<E>) -> ErrorKind {
    match error {
        ThreadError::ContextClosed => ErrorKind::Other,
        ThreadError::Exception(_) => ErrorKind::Other,
        ThreadError::AlreadyRegistered => ErrorKind::AlreadyExists,
        _ => ErrorKind::Unsupported,
    }
}

/// Error kinds: a closed context and browser exceptions are other errors, a
/// context with a registered thread already exists, and everything else is
/// unsupported.
pub proof fn lemma_error_kind<E>(error: ThreadError<E>)
    ensures
        (spec_error_kind(error) == ErrorKind::AlreadyExists <==> error is AlreadyRegistered),
        (spec_error_kind(error) == ErrorKind::Other <==> (error is ContextClosed || error is Exception)),
        (spec_error_kind(error) == ErrorKind::Unsupported <==> (error is UnsupportedThread || error is UnsupportedInWorklet
            || error is NoAtomics || error is NoSpawnSupport)),
{
}

impl<E> ThreadError<E> {
    /// The error kind, as `std::io::ErrorKind` names it.
    pub fn kind(&self) -> (kind: ErrorKind)
        ensures
            kind == spec_error_kind(*self),
    {
        match self {
            ThreadError::ContextClosed => ErrorKind::Other,
            ThreadError::Exception(_) => ErrorKind::Other,
            ThreadError::AlreadyRegistered => ErrorKind::AlreadyExists,
            _ => ErrorKind::Unsupported,
        }
    }

    /// The message of the error; `None` for an exception, whose message the
    /// browser supplies.
    pub fn message(&self) -> (message: Option<String>)
        ensures
            match *self {
                ThreadError::UnsupportedThread => message matches Some(m)
                    && m@ == "encountered unsupported thread type"@,
                ThreadError::UnsupportedInWorklet => message matches Some(m)
                    && m@ == "operation not supported in worklets"@,
                ThreadError::NoAtomics => message matches Some(m)
                    && m@ == "operation not supported on this platform without the atomics target feature"@,
                ThreadError::NoSpawnSupport => message matches Some(m)
                    && m@ == "operation not supported on this platform without the atomics target feature and cross-origin isolation"@,
                ThreadError::ContextClosed => message matches Some(m)
                    && m@ == "`BaseAudioContext` is closed"@,
                ThreadError::AlreadyRegistered => message matches Some(m)
                    && m@ == "`BaseAudioContext` already registered a thread"@,
                ThreadError::Exception(_) => message is None,
            },
    {
        match self {
            ThreadError::UnsupportedThread => Some(String::from_str("encountered unsupported thread type")),
            ThreadError::UnsupportedInWorklet => Some(String::from_str("operation not supported in worklets")),
            ThreadError::NoAtomics => Some(
                String::from_str("operation not supported on this platform without the atomics target feature"),
            ),
            ThreadError::NoSpawnSupport => Some(
                String::from_str(
                    "operation not supported on this platform without the atomics target feature and cross-origin isolation",
                ),
            ),
            ThreadError::ContextClosed => Some(String::from_str("`BaseAudioContext` is closed")),
            ThreadError::AlreadyRegistered => Some(
                String::from_str("`BaseAudioContext` already registered a thread"),
            ),
            ThreadError::Exception(_) => None,
        }
    }
}

/// Generates the appropriate error for an unsupported thread type.
pub fn unsupported_global<E>() -> (error: ThreadError<E>)
    ensures
        error is UnsupportedThread,
        spec_error_kind(error) == ErrorKind::Unsupported,
{
    ThreadError::UnsupportedThread
}

impl GlobalKind {
    /// Returns [`true`] if the thread type is a worker.
    pub fn is_worker(&self) -> (worker: bool)
        ensures
            worker == !(*self == GlobalKind::Window || *self == GlobalKind::Worklet),
    {
        match self {
            GlobalKind::Window | GlobalKind::Worklet => false,
            _ => true,
        }
    }
}

/// The thread is a window or a worker of any kind.
pub open spec fn is_window_or_worker(global: Option<GlobalKind>) -> bool {
    match global {
        Some(GlobalKind::Worklet) => false,
        Some(_) => true,
        None => false,
    }
}

/// Returns [`true`] if the thread is a window or a worker of any kind.
pub fn window_or_worker(global: Option<GlobalKind>) -> (result: bool)
    ensures
        result == is_window_or_worker(global),
{
    match global {
        Some(GlobalKind::Worklet) => false,
        Some(_) => true,
        None => false,
    }
}

/// How blocking support of a thread is found out.
#[derive(Clone, Copy, Debug, PartialEq, Eq, Structural)]
pub enum BlockSupportProbe {
    /// Known from the thread type alone.
    Known(bool),
    /// Shared worker: tested once, the result is cached for all of them.
    TestShared,
    /// Unknown thread type: tested on this thread.
    Test,
}

/// How blocking support is found out for each thread type.
pub open spec fn spec_block_support_probe(global: Option<GlobalKind>) -> BlockSupportProbe {
    match global {
        Some(GlobalKind::Window) => BlockSupportProbe::Known(false),
        Some(GlobalKind::Worklet) => BlockSupportProbe::Known(false),
        Some(GlobalKind::Service) => BlockSupportProbe::Known(false),
        Some(GlobalKind::Dedicated) => BlockSupportProbe::Known(true),
        Some(GlobalKind::Shared) => BlockSupportProbe::TestShared,
        _ => BlockSupportProbe::Test,
    }
}

/// Says how blocking support of a thread of type `global` is found out:
/// windows, worklets and service workers can't block, dedicated workers can,
/// shared workers (Firefox can't block there) and unknown thread types are
/// tested.
pub fn block_support_probe(global: Option<GlobalKind>) -> (probe: BlockSupportProbe)
    ensures
        probe == spec_block_support_probe(global),
{
    match global {
        Some(GlobalKind::Window) | Some(GlobalKind::Worklet) | Some(GlobalKind::Service) => {
            BlockSupportProbe::Known(false)
        },
        Some(GlobalKind::Dedicated) => BlockSupportProbe::Known(true),
        Some(GlobalKind::Shared) => BlockSupportProbe::TestShared,
        _ => BlockSupportProbe::Test,
    }
}

/// Whether a thread of type `global` supports blocking, where `tested` is
/// the result of testing `Atomics.wait` (used only where the thread type
/// does not tell).
pub open spec fn spec_has_block_support(global: Option<GlobalKind>, tested: bool) -> bool {
    match spec_block_support_probe(global) {
        BlockSupportProbe::Known(known) => known,
        _ => tested,
    }
}

/// Which threads can block: windows, worklets and service workers never
/// can, dedicated workers always can, and for shared workers and unknown
/// thread types the test of `Atomics.wait` decides.
pub proof fn lemma_block_support(global: Option<GlobalKind>, tested: bool)
    ensures
        global == Some(GlobalKind::Window) || global == Some(GlobalKind::Worklet) || global == Some(
            GlobalKind::Service,
        ) ==> !spec_has_block_support(global, tested),
        global == Some(GlobalKind::Dedicated) ==> spec_has_block_support(global, tested),
        global == Some(GlobalKind::Shared) || global == Some(GlobalKind::Worker) || global is None
            ==> spec_has_block_support(global, tested) == tested,
        spec_has_block_support(global, false) ==> global == Some(GlobalKind::Dedicated),
{
}

/// Implementation for `web::has_block_support()`.
pub fn has_block_support(global: Option<GlobalKind>, tested: bool) -> (supported: bool)
    ensures
        supported == spec_has_block_support(global, tested),
{
    match block_support_probe(global) {
        BlockSupportProbe::Known(known) => known,
        _ => tested,
    }
}

/// Finds out if `available_parallelism()` can be answered on a thread of
/// type `global`: it needs a navigator, which worklets and unknown thread
/// types don't have.
pub fn parallelism_support<E>(global: Option<GlobalKind>) -> (result: Result<(), ThreadError<E>>)
    ensures
        global is None ==> result matches Err(ThreadError::UnsupportedThread),
        global == Some(GlobalKind::Worklet) ==> result matches Err(ThreadError::UnsupportedInWorklet),
        is_window_or_worker(global) ==> result is Ok,
{
    match global {
        None => Err(unsupported_global()),
        Some(GlobalKind::Worklet) => Err(ThreadError::UnsupportedInWorklet),
        Some(_) => Ok(()),
    }
}

/// See `std::thread::available_parallelism()`. `hardware_concurrency` is
/// `Navigator.hardwareConcurrency` of the thread, read only where the thread
/// has a navigator.
///
/// Returns an error if called from a worklet or any other unsupported thread
/// type.
pub fn available_parallelism<E>(global: Option<GlobalKind>, hardware_concurrency: usize) -> (result: Result<usize, ThreadError<E>>)
    requires
        is_window_or_worker(global) ==> hardware_concurrency != 0,
    ensures
        global is None ==> result matches Err(ThreadError::UnsupportedThread),
        global == Some(GlobalKind::Worklet) ==> result matches Err(ThreadError::UnsupportedInWorklet),
        is_window_or_worker(global) ==> result == Ok::<usize, ThreadError<E>>(hardware_concurrency),
        result matches Ok(value) ==> value > 0,
{
    match parallelism_support(global) {
        Err(error) => Err(error),
        Ok(()) => Ok(hardware_concurrency),
    }
}

/// Implementation for `web::has_spawn_support()` with the atomics target
/// feature: the page has to be cross-origin isolated and the main thread has
/// to be able to construct workers.
pub fn has_spawn_support(cross_origin_isolated: bool, has_worker_constructor: bool) -> (supported: bool)
    ensures
        supported == (cross_origin_isolated && has_worker_constructor),
{
    cross_origin_isolated && has_worker_constructor
}

/// Implementation for `web::has_spawn_support()` without the atomics target
/// feature: spawning is never supported.
pub fn has_spawn_support_without_atomics() -> (supported: bool)
    ensures
        !supported,
{
    false
}

/// Determines if a shared worker has wait support: it has, if a zero array
/// could be made and `Atomics.wait` on it did not throw.
pub fn has_shared_worker_wait_support(global: Option<GlobalKind>, zero_array: bool, wait_ok: bool) -> (supported: bool)
    requires
        global == Some(GlobalKind::Shared),
    ensures
        supported == (zero_array && wait_ok),
{
    zero_array && wait_ok
}

} // verus!

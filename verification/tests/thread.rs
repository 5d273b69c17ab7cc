use web_thread::common::Step;
use web_thread::thread::audio_worklet::{
    code_points, node_options_plan, node_result, processor_data, processor_name, ProcessorData,
    ProcessorName, PropertyRemoval,
};
use web_thread::thread::builder::Builder;
use web_thread::thread::global::{
    available_parallelism, block_support_probe, has_block_support, has_spawn_support, BlockSupportProbe,
    ErrorKind, GlobalKind, ThreadError,
};
use web_thread::thread::id::{thread_name, Thread, ThreadIdCounter};
use web_thread::thread::join::{is_finished, JoinPoll, JoinState, TryLock};
use web_thread::thread::parker::{ms_covering, park, park_timeout, park_timeout_ms, sleep, sleep_ms, ParkAction, Parker};
use web_thread::thread::register::{register_precheck, RegisterState, RegisterThreadFuture};
use web_thread::thread::scope::{finish_async, ScopeData};
use web_thread::thread::spawn::{
    handle_command, message_spawn_route, send_message_outcome, worker_options, Command, MainAction,
    MessagePort, MessageSpawnRoute, ThreadWorkers,
};
use web_thread::thread::url::{thread_script, worker_entry_script};
use web_thread::thread::wait_async::{wait_plan, WaitPlan, WorkerCache, POLYFILL_WORKER_CACHE};
use web_thread::thread::yield_now::{TaskPriority, YieldCleanup, YieldNowFuture, YieldStrategy, YieldTime};

#[test]
fn unpark_releases_one_park() {
    let mut parker = Parker::new();
    parker.unpark();
    assert_eq!(park(true, &mut parker), ParkAction::Proceed);
    assert_eq!(park(true, &mut parker), ParkAction::Wait { timeout_ms: None });
}

#[test]
fn park_without_block_support_does_nothing() {
    let mut parker = Parker::new();
    parker.unpark();
    assert_eq!(park(false, &mut parker), ParkAction::Proceed);
    assert!(parker.notified);
    assert_eq!(park_timeout_ms(false, &mut parker, 5), ParkAction::Proceed);
    assert!(parker.notified);
}

#[test]
fn park_timeout_ms_waits_given_time() {
    let mut parker = Parker::new();
    assert_eq!(
        park_timeout_ms(true, &mut parker, 250),
        ParkAction::Wait { timeout_ms: Some(250) }
    );
}

#[test]
fn sleep_waits_duration() {
    assert_eq!(sleep(true, 1_500_000_000), ParkAction::Wait { timeout_ms: Some(1500) });
    assert_eq!(sleep_ms(true, 7), ParkAction::Wait { timeout_ms: Some(7) });
}

#[test]
fn sleep_rounds_up_to_whole_milliseconds() {
    assert_eq!(sleep(true, 1_900_000), ParkAction::Wait { timeout_ms: Some(2) });
    assert_eq!(sleep(true, 1), ParkAction::Wait { timeout_ms: Some(1) });
    assert_eq!(sleep(true, 0), ParkAction::Wait { timeout_ms: Some(0) });
    assert_eq!(ms_covering(2_000_000), 2);
    assert_eq!(ms_covering(2_000_001), 3);
    assert_eq!(ms_covering(u128::MAX), u128::MAX / 1_000_000 + 1);
    let mut parker = Parker::new();
    assert_eq!(park_timeout(true, &mut parker, 1_500_000), ParkAction::Wait { timeout_ms: Some(2) });
    parker.unpark();
    assert_eq!(park_timeout(true, &mut parker, 1_500_000), ParkAction::Proceed);
    assert_eq!(park_timeout(false, &mut parker, 1_500_000), ParkAction::Proceed);
}

#[test]
fn thread_ids_increase_from_one() {
    let mut counter = ThreadIdCounter::new();
    let first = Thread::new_with_name(&mut counter, None);
    let second = Thread::new_with_name(&mut counter, Some("worker".to_string()));
    assert_eq!(first.id().as_u64(), 1);
    assert_eq!(second.id().as_u64(), 2);
    assert_ne!(first.id(), second.id());
    assert_eq!(second.name(), Some("worker"));
    assert_eq!(first.name(), None);
}

#[test]
fn thread_name_from_global() {
    assert_eq!(thread_name(Some(GlobalKind::Dedicated), "a".to_string()), Some("a".to_string()));
    assert_eq!(thread_name(Some(GlobalKind::Shared), String::new()), None);
    assert_eq!(thread_name(Some(GlobalKind::Window), "a".to_string()), None);
    assert_eq!(thread_name(None, "a".to_string()), None);
}

#[test]
fn available_parallelism_by_thread_type() {
    assert_eq!(available_parallelism::<()>(Some(GlobalKind::Window), 8).ok(), Some(8));
    assert_eq!(available_parallelism::<()>(Some(GlobalKind::Service), 4).ok(), Some(4));
    assert!(matches!(
        available_parallelism::<()>(Some(GlobalKind::Worklet), 0),
        Err(ThreadError::UnsupportedInWorklet)
    ));
    assert!(matches!(available_parallelism::<()>(None, 0), Err(ThreadError::UnsupportedThread)));
}

#[test]
fn error_messages_and_kinds() {
    let error: ThreadError<()> = ThreadError::UnsupportedThread;
    assert_eq!(error.message().unwrap(), "encountered unsupported thread type");
    assert_eq!(error.kind(), ErrorKind::Unsupported);
    let error: ThreadError<()> = ThreadError::AlreadyRegistered;
    assert_eq!(error.message().unwrap(), "`BaseAudioContext` already registered a thread");
    assert_eq!(error.kind(), ErrorKind::AlreadyExists);
    let error: ThreadError<()> = ThreadError::ContextClosed;
    assert_eq!(error.kind(), ErrorKind::Other);
    let error: ThreadError<u8> = ThreadError::Exception(3);
    assert_eq!(error.message(), None);
}

#[test]
fn block_support_by_thread_type() {
    assert!(!has_block_support(Some(GlobalKind::Window), true));
    assert!(!has_block_support(Some(GlobalKind::Worklet), true));
    assert!(!has_block_support(Some(GlobalKind::Service), true));
    assert!(has_block_support(Some(GlobalKind::Dedicated), false));
    assert!(has_block_support(Some(GlobalKind::Shared), true));
    assert!(!has_block_support(Some(GlobalKind::Shared), false));
    assert!(has_block_support(None, true));
    assert_eq!(block_support_probe(Some(GlobalKind::Worker)), BlockSupportProbe::Test);
    assert_eq!(block_support_probe(Some(GlobalKind::Shared)), BlockSupportProbe::TestShared);
    assert!(GlobalKind::Shared.is_worker());
    assert!(!GlobalKind::Worklet.is_worker());
}

#[test]
fn spawn_support_needs_isolation_and_worker() {
    assert!(has_spawn_support(true, true));
    assert!(!has_spawn_support(false, true));
    assert!(!has_spawn_support(true, false));
}

#[test]
fn yield_strategy_prefers_scheduler() {
    let future = YieldNowFuture::new(YieldTime::UserBlocking, Some(GlobalKind::Window), true, true);
    assert_eq!(
        future.state,
        Some(YieldStrategy::Scheduler { priority: Some(TaskPriority::UserBlocking) })
    );
    let future = YieldNowFuture::new(YieldTime::UserVisible, Some(GlobalKind::Dedicated), true, false);
    assert_eq!(future.state, Some(YieldStrategy::Scheduler { priority: None }));
    let future = YieldNowFuture::new(YieldTime::Background, Some(GlobalKind::Window), true, true);
    assert_eq!(
        future.state,
        Some(YieldStrategy::Scheduler { priority: Some(TaskPriority::Background) })
    );
}

#[test]
fn yield_strategy_fallbacks() {
    let future = YieldNowFuture::new(YieldTime::Idle, Some(GlobalKind::Window), true, true);
    assert_eq!(future.state, Some(YieldStrategy::Idle));
    let future = YieldNowFuture::new(YieldTime::Idle, Some(GlobalKind::Dedicated), true, true);
    assert_eq!(future.state, Some(YieldStrategy::Channel));
    let future = YieldNowFuture::new(YieldTime::UserVisible, Some(GlobalKind::Window), false, true);
    assert_eq!(future.state, Some(YieldStrategy::Channel));
    let mut future = YieldNowFuture::new(YieldTime::UserVisible, Some(GlobalKind::Worklet), true, true);
    assert_eq!(future.state, Some(YieldStrategy::Unsupported));
    assert_eq!(future.poll(false), Step::Ready(()));
    assert_eq!(future.state, None);
}

#[test]
fn yield_poll_and_cleanup() {
    let mut future = YieldNowFuture::new(YieldTime::Idle, Some(GlobalKind::Window), false, true);
    assert_eq!(future.poll(false), Step::Pending);
    assert_eq!(future.drop_cleanup(), Some(YieldCleanup::CancelIdleCallback));
    assert_eq!(future.drop_cleanup(), None);
    let mut future = YieldNowFuture::new(YieldTime::Background, Some(GlobalKind::Window), true, false);
    assert_eq!(future.drop_cleanup(), Some(YieldCleanup::AbortTask));
    let mut future = YieldNowFuture::new(YieldTime::Background, Some(GlobalKind::Window), false, false);
    assert_eq!(future.poll(true), Step::Ready(()));
    assert_eq!(future.drop_cleanup(), None);
}

#[test]
fn register_checks() {
    assert!(matches!(register_precheck::<()>(true, Some(true)), Err(ThreadError::ContextClosed)));
    assert!(matches!(register_precheck::<()>(false, Some(true)), Err(ThreadError::AlreadyRegistered)));
    assert!(register_precheck::<()>(false, Some(false)).is_ok());
    assert!(register_precheck::<()>(false, None).is_ok());
}

#[test]
fn register_goes_through_module_and_package() {
    let (mut future, mark) = RegisterThreadFuture::<u8>::start(Ok(()));
    assert!(mark);
    assert!(matches!(future.poll_module(Step::Pending), web_thread::thread::register::ModuleOutcome::Pending));
    assert!(matches!(
        future.poll_module(Step::Ready(Ok(()))),
        web_thread::thread::register::ModuleOutcome::CreateNode
    ));
    assert!(future.node_created(Ok(())).is_none());
    assert!(matches!(future.state, Some(RegisterState::Package)));
    assert!(matches!(future.poll_package::<u32>(Step::Pending), Step::Pending));
    assert!(matches!(future.poll_package(Step::Ready(Some(9u32))), Step::Ready(Ok(9))));
    assert!(future.state.is_none());
}

#[test]
fn register_fails_with_exception() {
    let (mut future, mark) = RegisterThreadFuture::<u8>::start(Err(4));
    assert!(!mark);
    assert!(matches!(future.poll_error(), Step::Ready(Err(ThreadError::Exception(4)))));
    let (mut future, _) = RegisterThreadFuture::<u8>::start(Ok(()));
    assert!(matches!(
        future.poll_module(Step::Ready(Err(5))),
        web_thread::thread::register::ModuleOutcome::Failed(ThreadError::Exception(5))
    ));
    let (mut future, _) = RegisterThreadFuture::<u8>::start(Ok(()));
    assert!(matches!(future.node_created(Err(6)), Some(ThreadError::Exception(6))));
    assert!(future.state.is_none());
}

#[test]
fn register_drop_runs_in_background() {
    let (mut future, _) = RegisterThreadFuture::<u8>::start(Ok(()));
    assert!(future.drop_in_background());
    let mut future = RegisterThreadFuture::<u8>::error(ThreadError::ContextClosed);
    assert!(!future.drop_in_background());
}

#[test]
fn code_points_of_names() {
    assert_eq!(code_points("aé"), vec![97, 233]);
    assert!(matches!(processor_name("x", true), ProcessorName::Text(s) if s == "x"));
    assert!(matches!(processor_name("x", false), ProcessorName::CodePoints(p) if p == vec![120]));
}

#[test]
fn processor_options_plan() {
    let plan = node_options_plan(false, false);
    assert!(plan.create_options && plan.set_processor_options && plan.empty);
    assert_eq!(plan.cleanup, PropertyRemoval::ProcessorOptions);
    let plan = node_options_plan(true, true);
    assert!(!plan.create_options && !plan.set_processor_options && !plan.empty);
    assert_eq!(plan.cleanup, PropertyRemoval::DataProperty);
    assert!(matches!(node_result::<u8, &str, u8>(Ok(1), "data"), Ok(1)));
    assert!(matches!(node_result::<u8, &str, u8>(Err(2), "data"), Err(e) if e.data == "data"));
}

#[test]
fn processor_data_delivery() {
    assert_eq!(processor_data(false, true, true, 1), ProcessorData::Absent);
    assert_eq!(processor_data(true, false, true, 1), ProcessorData::Absent);
    assert_eq!(processor_data(true, true, false, 1), ProcessorData::Mismatched);
    assert_eq!(
        processor_data(true, true, true, 1),
        ProcessorData::Delivered(PropertyRemoval::ProcessorOptions)
    );
    assert_eq!(
        processor_data(true, true, true, 3),
        ProcessorData::Delivered(PropertyRemoval::DataProperty)
    );
}

#[test]
fn scope_counts_threads() {
    let mut scope = ScopeData::new();
    scope.thread_spawned();
    scope.thread_spawned();
    assert_eq!(scope.thread_count(), 2);
    assert!(!scope.thread_finished());
    assert!(!scope.finish());
    assert!(scope.thread_finished());
    assert!(scope.finish());
    assert_eq!(finish_async(0, 5), Step::Ready(()));
    assert_eq!(finish_async(2, 0), Step::Ready(()));
    assert_eq!(finish_async(2, 1), Step::Pending);
}

#[test]
fn join_handle_state() {
    assert!(is_finished::<u8>(true, &TryLock::WouldBlock));
    assert!(is_finished(false, &TryLock::Locked(Some(1u8))));
    assert!(is_finished(false, &TryLock::Poisoned(Some(1u8))));
    assert!(!is_finished::<u8>(false, &TryLock::Locked(None)));
    let mut state = JoinState::new();
    assert!(matches!(state.poll_first::<u8>(1, 2, TryLock::WouldBlock), JoinPoll::RegisterAndRetry));
    assert_eq!(state.poll_second::<u8>(TryLock::Locked(None)), Step::Pending);
    assert_eq!(state.poll_second(TryLock::Poisoned(Some(3u8))), Step::Ready(3));
    assert!(state.taken);
}

#[test]
fn spawn_routes() {
    assert_eq!(message_spawn_route(false, false, None), MessageSpawnRoute::WithoutMessage);
    assert_eq!(message_spawn_route(true, true, None), MessageSpawnRoute::Here);
    assert_eq!(
        message_spawn_route(true, false, Some(GlobalKind::Dedicated)),
        MessageSpawnRoute::Nested(MessagePort::DedicatedWorker)
    );
    assert_eq!(
        message_spawn_route(true, false, Some(GlobalKind::Worklet)),
        MessageSpawnRoute::Nested(MessagePort::AudioWorklet)
    );
    let options = worker_options(Some("t"));
    assert!(options.module);
    assert_eq!(options.name.as_deref(), Some("t"));
    assert!(worker_options(None).name.is_none());
}

#[test]
fn send_message_failure_posts_empty_message() {
    let (empty, result) = send_message_outcome::<u8>(Err(1));
    assert!(empty);
    assert!(matches!(result, Err(ThreadError::Exception(1))));
    let (empty, result) = send_message_outcome::<u8>(Ok(()));
    assert!(!empty && result.is_ok());
}

#[test]
fn thread_workers_spawn_and_terminate() {
    let mut workers = ThreadWorkers::new();
    assert!(matches!(workers.spawned::<u8>(1, 10, Ok(())), Ok(false)));
    assert!(matches!(workers.spawned::<u8>(2, 20, Err(7)), Err(ThreadError::Exception(7))));
    assert_eq!(workers.terminated(1), 10);
    assert!(workers.map.is_empty());
    assert!(matches!(handle_command::<u8, u8>(Command::Spawn(3)), MainAction::Spawn(3)));
    assert!(matches!(
        handle_command::<u8, u8>(Command::Terminate { id: 4, memory: 5 }),
        MainAction::WaitThenTerminate { id: 4, memory: 5 }
    ));
}

#[test]
fn wait_plans() {
    assert_eq!(wait_plan(1, 0, true), WaitPlan::Done);
    assert_eq!(wait_plan(0, 0, true), WaitPlan::Native);
    assert_eq!(wait_plan(0, 0, false), WaitPlan::Polyfill);
}

#[test]
fn worker_cache_is_bounded() {
    let mut cache = WorkerCache::new();
    assert_eq!(cache.acquire(), None);
    for worker in 0..15 {
        cache.release(worker);
    }
    assert_eq!(cache.workers.len(), POLYFILL_WORKER_CACHE);
    assert_eq!(cache.acquire(), Some(9));
    cache.release(42);
    assert_eq!(cache.acquire(), Some(42));
}

#[test]
fn scripts() {
    assert_eq!(
        thread_script("m.js", "body"),
        "import {initSync, __web_thread_entry} from 'm.js';\n\nbody"
    );
    assert_eq!(
        worker_entry_script("m.js", "B"),
        "import {initSync, __web_thread_worker_entry} from 'm.js'\n\nB"
    );
}

#[test]
fn builder_name() {
    let builder = Builder::new().name("x".to_string());
    assert_eq!(builder.name.as_deref(), Some("x"));
    assert!(matches!(Builder::new().spawn_without_atomics::<()>(), Err(ThreadError::NoAtomics)));
}

#[test]
fn finished_thread_stays_finished() {
    assert!(!is_finished::<u8>(false, &TryLock::Locked(None)));
    assert!(is_finished(false, &TryLock::Locked(Some(3))));
    let mut state = JoinState::new();
    assert!(matches!(state.poll_first(1, 2, TryLock::Locked(Some(3))), JoinPoll::Ready(3)));
    assert!(is_finished::<u8>(state.taken, &TryLock::Locked(None)));
    assert!(is_finished::<u8>(state.taken, &TryLock::Poisoned(None)));
}

use web_thread::message_handler::{handle_message, Message, MessageAction};
use web_thread::registry::{IdGenerator, Registry};
use web_thread::try_catch::{try_poll, try_result, TryFuture};
use web_thread::common::Step;
use web_thread::web::{
    has_spawn_support, has_spawn_support_cached, has_wait_support, has_wait_support_cached, ScopeFuture, ScopeState,
};
use once_cell::sync::OnceCell;
use web_thread::thread::global::GlobalKind;
use web_thread::thread::scope::ScopeData;
use web_thread::window::message::{handle_window_message, task_kind_name, WindowAction, WindowMessage};
use web_thread::window::track::{Id, Ids, Occupied, Workers};

#[test]
fn ids_are_consecutive() {
    let mut ids = Ids::new();
    assert_eq!(ids.next(), Id(0));
    assert_eq!(ids.next(), Id(1));
    let mut generator = IdGenerator::init();
    assert_eq!(generator.next(), Id(0));
    assert_eq!(generator.0, 1);
    let mut wrapping = Ids { counter: usize::MAX };
    assert_eq!(wrapping.next(), Id(usize::MAX));
    assert_eq!(wrapping.counter, 0);
}

#[test]
fn workers_push_and_remove() {
    let mut workers = Workers::new();
    assert_eq!(workers.push(Id(3), 30), Ok(()));
    assert_eq!(workers.push(Id(3), 31), Err(Occupied));
    assert_eq!(workers.remove(Id(3)), Some(31));
    assert_eq!(workers.remove(Id(3)), None);
    let registry = Registry::new();
    assert!(registry.0.map.is_empty());
}

#[test]
fn window_messages() {
    let mut workers = Workers::new();
    workers.push(Id(1), 10).unwrap();
    assert!(matches!(
        handle_window_message(&mut workers, WindowMessage::Spawn { id: Id(2), task: "t" }),
        WindowAction::Spawn { id: Id(2), task: "t" }
    ));
    assert!(matches!(
        handle_window_message::<()>(&mut workers, WindowMessage::Terminate(Id(1))),
        WindowAction::Terminate(10)
    ));
    assert!(matches!(
        handle_window_message::<()>(&mut workers, WindowMessage::Finished(Id(1))),
        WindowAction::WarnUnknown
    ));
    workers.push(Id(4), 40).unwrap();
    assert!(matches!(
        handle_window_message::<()>(&mut workers, WindowMessage::Finished(Id(4))),
        WindowAction::Nothing
    ));
    assert_eq!(task_kind_name(true), "Future");
    assert_eq!(task_kind_name(false), "Closure");
}

#[test]
fn handler_messages() {
    let mut workers = Workers::new();
    workers.push(Id(5), 50).unwrap();
    assert!(matches!(handle_message::<()>(&mut workers, Message::Close(Id(5))), MessageAction::Nothing));
    assert!(matches!(handle_message::<()>(&mut workers, Message::Terminate(Id(5))), MessageAction::Nothing));
    assert!(matches!(handle_message::<()>(&mut workers, Message::Close(Id(5))), MessageAction::WarnUnknown));
}

#[test]
fn try_catch_results() {
    assert_eq!(try_result(Some(1), "unused".to_string()), Ok(1));
    assert_eq!(try_result::<u8>(None, "thrown".to_string()), Err("thrown".to_string()));
    assert_eq!(try_poll(Ok(Step::Ready(2))), Step::Ready(Ok(2)));
    assert_eq!(try_poll::<u8>(Ok(Step::Pending)), Step::Pending);
    assert_eq!(try_poll::<u8>(Err("e".to_string())), Step::Ready(Err("e".to_string())));
    assert_eq!(TryFuture::new(3).future, 3);
}

#[test]
fn web_support() {
    assert!(has_wait_support(Some(GlobalKind::Dedicated), false));
    assert!(!has_wait_support(Some(GlobalKind::Window), true));
    assert!(has_spawn_support(true, true, true));
    assert!(!has_spawn_support(false, true, true));
}

#[test]
fn scope_future_conversions() {
    let scope: ScopeFuture<u8, u16> = ScopeFuture::new(1);
    let mut into_wait = scope.into_wait();
    let reverted = into_wait.revert();
    assert!(matches!(reverted.state, ScopeState::Running(1)));
    let mut into_wait = reverted.into_wait();
    let wait = match into_wait.poll(Step::Ready(7)) {
        Step::Ready(wait) => wait,
        Step::Pending => panic!("expected the scope's future to be done"),
    };
    let mut waiting = wait;
    assert_eq!(waiting.poll(2), Step::Pending);
    let mut threads = ScopeData::new();
    threads.thread_spawned();
    let waiting = match waiting.join(&threads) {
        Ok(_) => panic!("a thread still runs"),
        Err(waiting) => waiting,
    };
    threads.thread_finished();
    assert!(matches!(waiting.join(&threads), Ok(7)));
    let mut scope: ScopeFuture<u8, u16> = ScopeFuture::new(1);
    assert_eq!(scope.poll(Step::Pending, 0), Step::Pending);
    assert_eq!(scope.poll(Step::Ready(3), 1), Step::Pending);
    assert_eq!(scope.poll(Step::Pending, 0), Step::Ready(3));
}

#[test]
fn support_answers_are_cached() {
    let mut cache = OnceCell::new();
    assert!(has_spawn_support_cached(&mut cache, true, true, true));
    assert!(has_spawn_support_cached(&mut cache, true, false, true));
    assert_eq!(cache.get(), Some(&true));
    let mut cache = OnceCell::new();
    assert!(!has_spawn_support_cached(&mut cache, false, true, true));
    assert!(!has_spawn_support_cached(&mut cache, true, true, true));
    let mut cache = OnceCell::new();
    assert!(!has_wait_support_cached(&mut cache, Some(GlobalKind::Window), true));
    assert!(!has_wait_support_cached(&mut cache, Some(GlobalKind::Dedicated), true));
    let mut cache = OnceCell::new();
    assert!(has_wait_support_cached(&mut cache, Some(GlobalKind::Dedicated), false));
    assert_eq!(cache.get(), Some(&true));
}

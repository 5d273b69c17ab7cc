use once_cell::sync::OnceCell;
use web_thread::common::{IdCounter, Step, Tls};
use web_thread::worker::builder::{init_post, spawn_outcome, CreateWorker, InitPost, RawMessages, WorkerBuilder};
use web_thread::worker::context::{ContextBackup, HandlerSlot, MessageHandler, WorkerContext};
use web_thread::worker::handle::{
    clears_on_drop, destroy, handle_clear_message_handler, handle_has_message_handler,
    handle_set_message_handler, DestroyError,
};
use web_thread::worker::support::{
    has_async_support, AsyncSupportError, GlobalContext, Oneshot, SupportState, WorkerCleanup,
};
use web_thread::worker::url::{worker_script, WorkerUrl};

#[test]
fn context_backup_and_name() {
    let mut backup = ContextBackup::new();
    assert!(WorkerContext::<u8>::new(&backup).is_none());
    let context = WorkerContext::init(7u8, 3, "named".to_string(), &mut backup);
    assert_eq!(context.id(), 3);
    assert_eq!(*context.as_raw(), 7);
    assert_eq!(context.name(), Some("named".to_string()));
    let copy = WorkerContext::new(&backup).unwrap();
    assert_eq!(copy.id(), 3);
    assert_eq!(copy.into_raw(), 7);
    let mut other = ContextBackup::new();
    let unnamed = WorkerContext::init(1u8, 4, String::new(), &mut other);
    assert_eq!(unnamed.name(), None);
    let tls = unnamed.tls(16, 32);
    assert_eq!(tls, Tls { id: 4, tls_base: 16, stack_alloc: 32 });
}

#[test]
fn context_message_handler() {
    let mut backup = ContextBackup::new();
    let context = WorkerContext::init((), 1, String::new(), &mut backup);
    let mut slot: HandlerSlot<u8, u16> = HandlerSlot::new();
    assert!(!context.has_message_handler(&slot));
    context.set_message_handler(&mut slot, 5);
    assert!(context.has_message_handler(&slot));
    assert!(matches!(slot.handler, Some(MessageHandler::Classic(5))));
    context.set_message_handler_async(&mut slot, 6);
    assert!(matches!(slot.handler, Some(MessageHandler::Future(6))));
    context.clear_message_handler(&mut slot);
    assert!(!context.has_message_handler(&slot));
}

#[test]
fn destroy_only_once() {
    let mut id = Some(5);
    let wrong = Tls { id: 6, tls_base: 0, stack_alloc: 0 };
    assert!(matches!(destroy("handle", &mut id, wrong), Err(DestroyError::Match { handle: "handle", .. })));
    assert_eq!(id, Some(5));
    let right = Tls { id: 5, tls_base: 0, stack_alloc: 0 };
    assert!(destroy("handle", &mut id, right).is_ok());
    assert_eq!(id, None);
    assert!(matches!(destroy("handle", &mut id, right), Err(DestroyError::Already(tls)) if tls == right));
    let error: DestroyError<()> = DestroyError::Already(right);
    assert_eq!(error.message(), "this worker was already destroyed");
}

#[test]
fn handle_message_handlers() {
    let mut slot: HandlerSlot<u8, u8> = HandlerSlot::new();
    assert!(!handle_has_message_handler(Some(&slot)));
    assert!(handle_set_message_handler(&mut slot, true, MessageHandler::Classic(1)));
    assert!(handle_has_message_handler(Some(&slot)));
    assert!(!handle_has_message_handler::<u8, u8>(None));
    assert!(!handle_clear_message_handler(&mut slot, false));
    assert!(slot.handler.is_some());
    assert!(handle_clear_message_handler(&mut slot, true));
    assert!(slot.handler.is_none());
    assert!(clears_on_drop(1));
    assert!(!clears_on_drop(2));
}

#[test]
fn async_support_cached_and_tested() {
    let mut cache = OnceCell::new();
    assert_eq!(
        has_async_support(&mut cache, false, GlobalContext::Worklet, true).err(),
        Some(AsyncSupportError)
    );
    let mut future = has_async_support(&mut cache, false, GlobalContext::Window, true).unwrap();
    assert_eq!(future.state, Some(SupportState::Worker));
    assert_eq!(future.poll(&mut cache, Step::Pending), (Step::Pending, WorkerCleanup::Keep));
    assert_eq!(future.poll(&mut cache, Step::Ready(false)), (Step::Ready(false), WorkerCleanup::Terminate));
    assert_eq!(cache.get(), Some(&false));
    let future = has_async_support(&mut cache, true, GlobalContext::Worker, true).unwrap();
    assert_eq!(future.state, Some(SupportState::Ready(false)));
}

#[test]
fn async_support_from_worker() {
    let mut cache = OnceCell::new();
    let mut future = has_async_support(&mut cache, false, GlobalContext::Worker, true).unwrap();
    assert_eq!(cache.get(), Some(&true));
    assert_eq!(future.into_inner(&cache, None), (Some(true), WorkerCleanup::Keep));
    assert!(future.is_terminated());
    let mut cache = OnceCell::new();
    let mut future = has_async_support(&mut cache, true, GlobalContext::Window, false).unwrap();
    assert_eq!(future.abort(None), (Some(true), WorkerCleanup::Keep));
    assert_eq!(AsyncSupportError.message(), "context can't be used to determine support");
}

#[test]
fn oneshot_wakes_poller() {
    let mut oneshot = Oneshot::new();
    assert_eq!(oneshot.poll(), Step::Pending);
    assert!(oneshot.set(true));
    assert_eq!(oneshot.get(), Some(true));
    assert_eq!(oneshot.poll(), Step::Ready(true));
}

#[test]
fn builder_options_and_ids() {
    let builder = WorkerBuilder::new_with_url(true).name("w");
    let options = builder.options.as_ref().unwrap();
    assert!(options.module);
    assert_eq!(options.name.as_deref(), Some("w"));
    let builder = WorkerBuilder::new_with_url(false);
    assert!(builder.options.is_none());
    let builder = builder.name("plain");
    assert!(!builder.options.as_ref().unwrap().module);
    let mut counter = IdCounter::new();
    let mut builder = WorkerBuilder::new_with_url(false).message_handler();
    assert_eq!(builder.id, None);
    let (id, create, handler) = builder.spawn_internal(&mut counter);
    assert_eq!(id, 0);
    assert_eq!(builder.id, Some(0));
    assert!(matches!(create, CreateWorker::Plain));
    assert!(handler);
    let mut builder = WorkerBuilder::new_with_url(true);
    let (id, create, handler) = builder.spawn_internal(&mut counter);
    assert_eq!(id, 1);
    assert_eq!(builder.id, Some(1));
    assert!(builder.options.is_none());
    assert!(!handler);
    assert!(matches!(create, CreateWorker::WithOptions(_)));
    assert_eq!(counter.next, 2);
}

#[test]
fn init_posts() {
    assert_eq!(init_post(None), InitPost::Plain);
    assert_eq!(init_post(Some(RawMessages::Empty)), InitPost::Plain);
    assert_eq!(init_post(Some(RawMessages::Single)), InitPost::TransferSingle);
    assert_eq!(init_post(Some(RawMessages::Array)), InitPost::TransferArray);
    assert_eq!(spawn_outcome::<u8, u8>(InitPost::TransferSingle, Err(3), 1), Err(3));
    assert_eq!(spawn_outcome::<u8, u8>(InitPost::Plain, Ok(()), 1), Ok(1));
}

#[test]
fn worker_scripts() {
    assert_eq!(
        worker_script("shim.js", "run();"),
        "import {initSync, __web_thread_worker_entry} from 'shim.js';\n\nrun();"
    );
    assert_eq!(WorkerUrl::new("blob:x".to_string()).as_raw(), "blob:x");
}

#[test]
fn ids_do_not_repeat_before_wrapping() {
    let mut counter = IdCounter { next: u64::MAX - 1 };
    let first = counter.fetch_add();
    let second = counter.fetch_add();
    let third = counter.fetch_add();
    assert_eq!((first, second, third), (u64::MAX - 1, u64::MAX, 0));
    assert_eq!(counter.next, 1);
}

use once_cell::sync::OnceCell;
use web_thread::common::{IdCounter, Step, Tls};
use web_thread::worker::context::{HandlerSlot, MessageHandler};
use web_thread::worker::handle::DestroyError;
use web_thread::worklet::audio::{
    store, AudioState, AudioWorkletBackup, AudioWorkletContext, AudioWorkletFuture, AudioWorkletModule,
    AudioWorkletUrl, DefaultObject, DefaultObjectFuture, ModuleReady,
};
use web_thread::worklet::builder::{claim_context, init_check, UrlOutcome, WorkletBuilder, WorkletInitError, WorkletState};
use web_thread::worklet::context::{WorkletBackup, WorkletContext};
use web_thread::worklet::handle::{destroy_worklet, destroyed, worklet_id};
use web_thread::worklet::has_async_support;
use web_thread::worklet::module::{
    new_module_future, DefaultModule, ModuleRef, ModuleState, ModuleStep, ModuleType, ShimFormat,
    WorkletModule, WorkletModuleError,
};
use web_thread::worklet::polyfill::PolyfillImport;
use web_thread::worklet::support::{has_import_support, ImportSupportFuture, SupportPoll, SupportState};
use web_thread::worklet::url::{new_import, new_inline, DefaultUrl, UrlRef, UrlStep, WorkletUrl, WorkletUrlFuture};

#[test]
fn worklet_context() {
    let mut backup = WorkletBackup::new();
    let mut slot: HandlerSlot<u8, u8> = HandlerSlot::new();
    let context = WorkletContext::init(1u8, 2u8, 9, Some(MessageHandler::Classic(3)), &mut backup, &mut slot);
    assert_eq!(context.id(), 9);
    assert_eq!(context.as_raw(), (&1, &2));
    assert!(context.has_message_handler(&slot));
    context.clear_message_handler(&mut slot);
    assert!(!context.has_message_handler(&slot));
    let copy = WorkletContext::new(&backup).unwrap();
    assert_eq!(copy.tls(1, 2), Tls { id: 9, tls_base: 1, stack_alloc: 2 });
    assert_eq!(copy.into_raw(), (1, 2));
}

#[test]
fn audio_worklet_context() {
    let mut backup = AudioWorkletBackup::new();
    assert!(AudioWorkletContext::<u8>::new(&backup).is_none());
    let context = AudioWorkletContext::init(4u8, 2, &mut backup);
    assert_eq!(*context.as_raw(), 4);
    assert_eq!(context.tls(0, 8).id, 2);
    assert_eq!(AudioWorkletContext::new(&backup).unwrap().into_raw(), 4);
}

#[test]
fn worklet_destroy_keeps_id() {
    let mut id = Ok(3);
    assert!(destroyed(id));
    let tls = Tls { id: 3, tls_base: 0, stack_alloc: 0 };
    assert!(destroy_worklet((), &mut id, tls).is_ok());
    assert_eq!(id, Err(3));
    assert_eq!(worklet_id(id), 3);
    assert!(!destroyed(id));
    assert!(matches!(destroy_worklet((), &mut id, tls), Err(DestroyError::Already(_))));
}

#[test]
fn worklet_added_once() {
    assert_eq!(init_check(Some(true)), Err(WorkletInitError));
    assert_eq!(init_check(None), Ok(()));
    assert_eq!(WorkletInitError.message(), "already added a Wasm module to this worklet");
    let mut marked = Some(false);
    assert!(WorkletBuilder::new().add(&mut marked).is_err());
    assert_eq!(marked, Some(false));
}

#[test]
fn context_takes_one_wasm_module() {
    let mut marker = None;
    assert_eq!(claim_context(&mut marker), Ok(()));
    assert_eq!(marker, Some(true));
    assert_eq!(claim_context(&mut marker), Err(WorkletInitError));
    assert_eq!(marker, Some(true));
    let mut marker = None;
    assert!(WorkletBuilder::new().add(&mut marker).is_ok());
    assert!(WorkletBuilder::new_with_url().add(&mut marker).is_err());
    assert!(AudioWorkletFuture::init_wasm(&mut marker).is_err());
}

#[test]
fn worklet_future_steps() {
    let mut future = WorkletBuilder::new().message_handler().add(&mut None).unwrap();
    assert!(future.has_message_handler);
    assert_eq!(future.state, Some(WorkletState::Url));
    assert!(matches!(future.poll_url::<u8, u8>(Step::Pending), UrlOutcome::Pending));
    assert!(matches!(future.poll_url::<u8, u8>(Step::Ready(Ok(5))), UrlOutcome::AddModule(5)));
    let mut counter = IdCounter::new();
    counter.fetch_add();
    assert_eq!(future.poll_add(false, &mut counter), Step::Pending);
    assert_eq!(future.poll_add(true, &mut counter), Step::Ready((1, true)));
    assert_eq!(future.id, Ok(1));
    assert!(future.is_terminated());
    let mut future = WorkletBuilder::new_with_url().add(&mut None).unwrap();
    assert_eq!(future.state, Some(WorkletState::Add));
    assert!(!future.has_message_handler);
    assert_eq!(future.poll_add(true, &mut counter), Step::Ready((2, false)));
    let mut future = WorkletBuilder::new().add(&mut None).unwrap();
    assert!(matches!(future.poll_url::<u8, u8>(Step::Ready(Err(2))), UrlOutcome::Failed(2)));
}

#[test]
fn audio_worklet_future_steps() {
    assert!(AudioWorkletFuture::init_wasm(&mut Some(true)).is_err());
    let mut marker = None;
    let mut future = AudioWorkletFuture::init_wasm(&mut marker).unwrap();
    assert_eq!(marker, Some(true));
    assert!(matches!(future.poll_module::<u8, u8>(Step::Ready(Ok(1))), ModuleReady::AddModule(1)));
    assert_eq!(future.state, Some(AudioState::Add));
    assert_eq!(future.poll_add(true), Step::Ready(()));
    let future = AudioWorkletFuture::init_wasm_with_module(&mut None).unwrap();
    assert_eq!(future.state, Some(AudioState::Add));
}

#[test]
fn default_objects_are_cached() {
    let mut cache = DefaultObject { value: None };
    let mut future = DefaultObjectFuture { running: true };
    assert!(!future.poll_cached(&cache));
    assert!(matches!(future.poll_module::<u8, u8>(Step::Ready(Ok(1))), ModuleReady::AddModule(1)));
    store(&mut cache, "first");
    store(&mut cache, "second");
    assert_eq!(cache.value, Some("first"));
    let mut future = DefaultObjectFuture { running: true };
    assert!(future.poll_cached(&cache));
    assert!(!future.running);
    assert_eq!(AudioWorkletModule("blob:m".to_string()).as_raw(), "blob:m");
    assert_eq!(AudioWorkletUrl("blob:u".to_string()).as_raw(), "blob:u");
}

#[test]
fn module_types_and_sequences() {
    let module = ModuleType::import("import 'p';\n", "shim.js");
    let sequence = AudioWorkletModule::sequence(&module, "body");
    assert_eq!(
        sequence,
        vec![
            "import 'p';\n".to_string(),
            "import {initSync, __wasm_worker_worklet_entry} from 'shim.js';\n\n".to_string(),
            "body".to_string()
        ]
    );
    let module = ModuleType::inline("poly", "shim".to_string(), "wasm");
    let sequence = module.to_sequence("body");
    assert_eq!(sequence.len(), 4);
    assert_eq!(
        sequence[2],
        "const initSync = wasm.initSync;\nconst __wasm_worker_worklet_entry = wasm.__wasm_worker_worklet_entry;\n\n"
    );
    assert_eq!(PolyfillImport::new("blob:p".to_string()).import(), "import 'blob:p';\n");
}

#[test]
fn module_future_es_module() {
    let mut cache = DefaultModule::new();
    let future = new_module_future::<u8>("s.js", ShimFormat::EsModule, Some(true), "poly", true, &mut cache);
    assert!(matches!(future.state, Some(ModuleState::Ready(Ok(ModuleRef::Default)))));
    assert!(matches!(cache.module, Some(Some(WorkletModule(ModuleType::Import { .. })))));
    let mut own = DefaultModule::new();
    let future = new_module_future::<u8>("s.js", ShimFormat::EsModule, Some(false), "poly", false, &mut own);
    assert!(matches!(future.state, Some(ModuleState::Ready(Err(WorkletModuleError::Support)))));
    let mut future = new_module_future::<u8>("s.js", ShimFormat::EsModule, None, "poly", true, &mut own);
    assert!(matches!(future.poll_start(&own), ModuleStep::Continue));
    assert!(matches!(future.step_import_support(Step::Pending, "poly", &mut own), ModuleStep::Pending));
    assert!(matches!(future.step_import_support(Step::Ready(false), "poly", &mut own), ModuleStep::Continue));
    assert!(matches!(future.step_ready(), ModuleStep::Ready(Err(WorkletModuleError::Support))));
    assert!(matches!(own.module, Some(None)));
}

#[test]
fn module_future_classic_fetch() {
    let mut cache = DefaultModule::new();
    let mut future = new_module_future::<u8>(
        "s.js",
        ShimFormat::Classic { global: "wasm".to_string() },
        None,
        "poly",
        false,
        &mut cache,
    );
    assert!(matches!(future.step_fetch(Step::Ready(Ok(()))), ModuleStep::Continue));
    assert!(matches!(future.state, Some(ModuleState::Text { .. })));
    assert!(matches!(future.step_text(Step::Ready(Ok("shim".to_string())), "poly", &mut cache), ModuleStep::Continue));
    match future.step_ready() {
        ModuleStep::Ready(Ok(ModuleRef::Owned(WorkletModule(ModuleType::Inline { shim, .. })))) => {
            assert_eq!(shim, "shim")
        }
        _ => panic!("expected inlined module"),
    }
    let mut future = new_module_future::<u8>(
        "s.js",
        ShimFormat::Classic { global: "wasm".to_string() },
        None,
        "poly",
        false,
        &mut cache,
    );
    assert!(matches!(future.step_fetch(Step::Ready(Err(4))), ModuleStep::Ready(Err(WorkletModuleError::Fetch(4)))));
    assert_eq!(
        WorkletModuleError::<u8>::Support.message(),
        "browser doesn't support importing modules in worklets"
    );
}

#[test]
fn cached_default_module_ends_at_once() {
    let mut cache = DefaultModule::new();
    let mut future = new_module_future::<u8>("s.js", ShimFormat::EsModule, None, "poly", true, &mut cache);
    cache.module = Some(None);
    assert!(matches!(future.poll_start(&cache), ModuleStep::Ready(Err(WorkletModuleError::Support))));
    assert!(future.is_terminated());
}

#[test]
fn import_support_checks() {
    let mut cache = OnceCell::new();
    let mut future = has_import_support(&cache);
    assert_eq!(future.state, Some(SupportState::Unknown));
    assert_eq!(future.into_inner(&cache), None);
    assert_eq!(future.poll(&cache), SupportPoll::StartProbe);
    future.probe_started();
    assert_eq!(future.poll(&cache), SupportPoll::PollProbe);
    assert_eq!(future.poll_probe(&mut cache, Step::Ready(true)), Step::Ready(true));
    assert_eq!(cache.get(), Some(&true));
    let mut future = ImportSupportFuture::new(&cache);
    assert_eq!(future.poll(&cache), SupportPoll::Ready(true));
    let fresh = OnceCell::new();
    assert_eq!(ImportSupportFuture::new(&fresh).state, Some(SupportState::Create));
    assert!(has_async_support(true));
}

#[test]
fn worklet_urls() {
    let sequence = new_import("s.js", "body");
    assert_eq!(sequence[0], "import {initSync, __wasm_worker_worklet_entry} from 's.js';\n\n");
    let sequence = new_inline("shim".to_string(), "g", "body");
    assert_eq!(
        sequence[1],
        "\nconst initSync = g.initSync;\nconst __wasm_worker_worklet_entry = g.__wasm_worker_worklet_entry;\n\n"
    );
    let mut cache = DefaultUrl::new();
    let mut future = WorkletUrlFuture::<u8>::new("s.js", ShimFormat::EsModule, "body", true, &mut cache);
    assert!(cache.url.is_some());
    assert!(matches!(future.poll_start(&cache), UrlStep::Ready(Ok(UrlRef::Default))));
    let mut future = WorkletUrlFuture::<u8>::new(
        "s.js",
        ShimFormat::Classic { global: "g".to_string() },
        "body",
        false,
        &mut cache,
    );
    assert!(matches!(future.into_inner(&cache), None));
    assert!(matches!(future.step_fetch(Step::Ready(Ok(()))), UrlStep::Continue));
    assert!(matches!(future.step_text(Step::Ready(Err(1)), "body", &mut cache), UrlStep::Ready(Err(_))));
    assert_eq!(WorkletUrl::new_internal("blob:w".to_string()).as_raw(), "blob:w");
}

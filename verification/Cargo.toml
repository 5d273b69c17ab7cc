[package]
name = "web_thread"
version = "0.1.0"
edition = "2021"
publish = false

[dependencies]
vec_map = "0.8"
once_cell = "1"
wasm-bindgen = "0.2"
wasm-bindgen-futures = "0.4"
js-sys = "0.3"
futures-channel = "0.3"
futures-util = "0.3"
futures-core = "0.3"
atomic-waker = "1"
pin-project = "1"
pin-project-lite = "0.2"

[dependencies.web-sys]
version = "0.3"
features = ["Window", "Worker", "WorkerOptions", "WorkerType", "DedicatedWorkerGlobalScope", "SharedWorkerGlobalScope", "WorkerGlobalScope", "MessageEvent", "MessagePort", "MessageChannel", "Blob", "BlobPropertyBag", "Url", "AudioWorkletNode", "AudioWorkletNodeOptions", "BaseAudioContext", "AudioWorkletGlobalScope", "AudioWorkletProcessor", "AudioWorklet", "Worklet", "WorkletGlobalScope", "AudioContextState", "OfflineAudioContext", "AbortController", "AbortSignal", "RequestInit", "RequestCache", "Response", "Navigator", "WorkerNavigator", "DomException", "console"]

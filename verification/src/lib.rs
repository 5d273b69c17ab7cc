//! Verified core of a library that runs Rust threads, workers and worklets
//! on the Web platform. The browser itself is reached by the caller; this
//! crate holds the bookkeeping and every decision made on its results.

pub mod common;
pub mod thread;
pub mod window;
pub mod web;
pub mod worker;
pub mod worklet;
pub mod message_handler;
pub mod registry;
pub mod try_catch;

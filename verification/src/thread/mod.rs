//! Re-implementation of `std::thread` for the Web: the bookkeeping and the
//! decisions, with the browser calls left to the caller.

pub mod global;
pub mod yield_now;
pub mod id;
pub mod parker;
pub mod register;
pub mod spawn;
pub mod scope;
pub mod join;
pub mod audio_worklet;
pub mod wait_async;
pub mod url;
pub mod builder;

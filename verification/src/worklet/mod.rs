//! Audio worklets running Rust: their context, handles, builder, module
//! scripts and support checks.

pub mod audio;
pub mod builder;
pub mod context;
pub mod handle;
pub mod module;
pub mod polyfill;
pub mod support;
pub mod url;

use vstd::prelude::*;

verus! {

/// Returns [`true`] if asynchronous waiting is supported in worklets, which
/// is so exactly where `Atomics.waitAsync` exists.
pub fn has_async_support(wait_async_support: bool) -> (supported: bool)
    ensures
        supported == wait_async_support,
{
    wait_async_support
}

} // verus!

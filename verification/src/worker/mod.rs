//! Dedicated workers spawned by the library: their context, handles,
//! builder, script and support checks.

pub mod builder;
pub mod context;
pub mod handle;
pub mod support;
pub mod url;

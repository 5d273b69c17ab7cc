//! Window state: tracking of spawned workers and handling of the messages
//! the window receives from its workers.

pub mod track;
pub mod message;

//! Lifecycle model for readers that stream the standard output of a spawned
//! command as discrete events, together with the policies such a reader
//! follows: how the command is handed to the shell, how events are produced,
//! and how the spawned process group is addressed at teardown.

pub mod event;
pub mod state;
pub mod error;
pub mod spawn;
pub mod teardown;
pub mod laws;

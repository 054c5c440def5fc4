//! Control plane for a browser with interchangeable rendering engines.
//!
//! A command is dispatched to the active engine or to a policy holder; every
//! change of the browser state is announced on the event bus with the state
//! that results from it.

pub mod ipc;
pub mod error;
pub mod bus;
pub mod engine;
pub mod state;
pub mod network;
pub mod security;
pub mod app;
pub mod shell;

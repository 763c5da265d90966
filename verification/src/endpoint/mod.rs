//! The application's side of an endpoint: bounded admission of commands, answers
//! that return what was not consumed, delivery, diagnostics and lifecycle.

pub mod command;
pub mod data;
pub mod diagnostics;
pub mod error;
pub mod handle;
pub mod laws;
pub mod receiver;
pub mod reply;
pub mod runtime;

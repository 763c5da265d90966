//! Execution of one TCP generation.

pub mod driver;
pub mod event_port;
pub mod laws;
pub mod runtime;
pub mod transport;

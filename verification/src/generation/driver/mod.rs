//! Synchronous single-owner execution shell for one HSMS connection generation.
//!
//! The Driver serializes accepted Control/Data commands and protocol inputs into
//! the runtime-neutral session core, consumes each ordered action batch exactly
//! once, and owns command completion, Writer admission, and transport closing.
//! It deliberately contains no socket, task, channel, or asynchronous runtime.

pub mod calls;
pub mod command;
pub mod driver;
pub mod effects;
pub mod laws;
pub mod model;
pub mod ports;

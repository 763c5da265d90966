//! Sans-I/O protocol core.

pub mod transaction;
pub mod write;

//! Identifiers and runtime values shared by every layer.

pub mod ids;
pub mod runtime;

//! Generation-scoped System Bytes allocation, pending operation ownership, T3
//! and T6 correlation, tombstones, and compiled response matching.
//!
//! The registry is a single-threaded Sans-I/O component. It returns structured
//! protocol decisions and never executes timers, command completions, or Core
//! effects itself.

pub mod allocator;
pub mod correlation;
pub mod decision;
pub mod laws;
pub mod matcher;
pub mod model;
pub mod registry;

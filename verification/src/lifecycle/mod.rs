//! Endpoint lifecycle values published to applications.

pub mod state;

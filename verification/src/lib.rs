//! Verified building blocks of an HSMS-SS endpoint: transaction correlation,
//! command admission, write visibility, generation shutdown and the endpoint
//! lifecycle, written as Sans-I/O state machines whose behaviour is stated in
//! contracts and proved.

pub mod api;
pub mod config;
pub mod endpoint;
pub mod error;
pub mod generation;
pub mod lifecycle;
pub mod manager;
pub mod model;
pub mod protocol;
pub mod secs2;
pub mod session_core;
pub mod sync;
pub mod text;

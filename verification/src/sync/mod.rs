//! The synchronization primitives and clock that the endpoint runs on.

pub mod channel;
pub mod clock;
pub mod semaphore;

//! HSMS message headers and semantic messages.

pub mod header;
pub mod laws;
pub mod message;
pub mod violation;

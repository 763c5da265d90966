//! Byte transport of one generation.

pub mod bounded_reader;
pub mod bounded_writer;
pub mod buffer;
pub mod io;
pub mod laws;
pub mod tasks;
pub mod writer;

//! Vocabulary of the generation-local write ledger.

pub mod contract;

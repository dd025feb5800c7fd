//! The transformers that a chain can hold.

pub mod enrich;
pub mod filter;

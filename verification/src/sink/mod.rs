//! Sinks that write records out.

pub mod file;

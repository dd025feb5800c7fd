//! The contracts shared by parsers, transformers and sinks.

pub mod parser;
pub mod sink;
pub mod transformer;

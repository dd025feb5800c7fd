//! A log ETL library: parsers turn raw log lines into records, transformers
//! keep or drop them, and formatters render them as output lines. The
//! program around it reads the input, writes the output and the dead-letter
//! queue, and answers the numeric comparisons of filters.

pub mod builder;
pub mod cli;
pub mod clock;
pub mod config;
pub mod error;
pub mod etl_core;
pub mod json;
pub mod laws;
pub mod parsers;
pub mod pattern;
pub mod pipeline;
pub mod record;
pub mod sink;
pub mod text;
pub mod transformers;

pub use config::Config;
pub use config::ParserConfig;
pub use config::SinkConfig;
pub use config::TransformerConfig;
pub use etl_core::parser::Parser;
pub use etl_core::transformer::Transformer;
pub use parsers::json_log::JsonParser;
pub use parsers::nginx_log::NginxParser;
pub use parsers::regex_log::RegexParser;
pub use pipeline::Pipeline;
pub use sink::file::FileSink;
pub use sink::file::OutputFormat;
pub use transformers::enrich::EnrichTransformer;
pub use transformers::filter::FilterTransformer;

//! The settings a run needs, from a configuration or from the command line.

use vstd::prelude::*;
use crate::config::{Config, ParserConfig, SinkConfig, InputConfig};

verus! {

/// The command line: which mode to run in.
#[derive(Debug)]
pub struct Args {
    pub mode: RunMode,
}

/// The two ways to run.
#[derive(Debug)]
pub enum RunMode {
    /// Everything from a configuration file.
    Config { config: String },
    /// Input, output, parser and format from the command line, with no transformers.
    Run { input: String, output: String, parser: String, format: String, workers: usize },
}

/// The settings of a run.
#[derive(Debug)]
pub struct RuntimeConfig {
    pub input_path: String,
    pub output_path: String,
    pub parser_type: String,
    pub output_format: String,
    pub workers: usize,
}

/// The name of a configured parser's type.
pub open spec fn parser_type_name(p: ParserConfig) -> Seq<char> {
    match p {
        ParserConfig::Nginx { .. } => "nginx"@,
        ParserConfig::Json { .. } => "json"@,
        ParserConfig::Regex { .. } => "regex"@,
    }
}

/// The message for a configuration that writes to Kafka.
pub open spec fn kafka_refused_message() -> Seq<char> {
    "Kafka输出请使用配置文件模式"@
}

impl RuntimeConfig {
    /// The settings of a configuration (already read and checked): its input
    /// file, its parser's type, its output file and format and its workers.
    /// A configuration that writes to Kafka is refused.
    pub fn from_config_file(config: &Config) -> (r: Result<Self, String>)
        ensures
            config.sink is Kafka <==> r is Err,
            r matches Err(m) ==> m@ == kafka_refused_message(),
            r matches Ok(rc) ==> {
                &&& config.input matches InputConfig::File { path, .. } && rc.input_path@ == path@
                &&& config.sink matches SinkConfig::File { path, format, .. } && rc.output_path@ == path@ && rc.output_format@ == format@
                &&& rc.parser_type@ == parser_type_name(config.parser)
                &&& rc.workers == config.global.workers
            },
    {
        let input_path = match &config.input {
            InputConfig::File { path, .. } => path.clone(),
        };
        let parser_type = match &config.parser {
            ParserConfig::Nginx { .. } => String::from_str("nginx"),
            ParserConfig::Json { .. } => String::from_str("json"),
            ParserConfig::Regex { .. } => String::from_str("regex"),
        };
        let (output_path, output_format) = match &config.sink {
            SinkConfig::File { path, format, .. } => (path.clone(), format.clone()),
            SinkConfig::Kafka { .. } => {
                return Err(String::from_str("Kafka输出请使用配置文件模式"));
            },
        };
        Ok(RuntimeConfig { input_path, output_path, parser_type, output_format, workers: config.global.workers })
    }

    /// The settings given on the command line.
    pub fn from_args(input: String, output: String, parser: String, format: String, workers: usize) -> (r: Self)
        ensures
            r.input_path == input,
            r.output_path == output,
            r.parser_type == parser,
            r.output_format == format,
            r.workers == workers,
    {
        RuntimeConfig { input_path: input, output_path: output, parser_type: parser, output_format: format, workers }
    }
}

} // verus!

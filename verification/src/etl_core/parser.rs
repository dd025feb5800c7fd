//! Parsers: from one log line to one record.

use vstd::prelude::*;
use crate::parsers::json_log::JsonParser;
use crate::parsers::nginx_log::NginxParser;
use crate::parsers::regex_log::RegexParser;
use crate::record::{ParsedRecord, RecordView};

verus! {

/// The mathematical form of what a parser returns.
pub open spec fn parse_view(r: Result<ParsedRecord, String>) -> Result<RecordView, Seq<char>> {
    match r {
        Ok(x) => Ok(x@),
        Err(e) => Err(e@),
    }
}

/// Reads one log line into a record, or fails with a message.
pub trait Parser {
    /// What the parser makes of `line`.
    spec fn parse_spec(&self, line: Seq<char>) -> Result<RecordView, Seq<char>>;

    fn parse(&self, line: &str) -> (r: Result<ParsedRecord, String>)
        ensures
            parse_view(r) == self.parse_spec(line@),
    ;
}

/// One of the supported parsers.
pub enum AnyParser {
    Nginx(NginxParser),
    Json(JsonParser),
    Regex(RegexParser),
}

impl Parser for AnyParser {
    open spec fn parse_spec(&self, line: Seq<char>) -> Result<RecordView, Seq<char>> {
        match self {
            AnyParser::Nginx(p) => p.parse_spec(line),
            AnyParser::Json(p) => p.parse_spec(line),
            AnyParser::Regex(p) => p.parse_spec(line),
        }
    }

    fn parse(&self, line: &str) -> (r: Result<ParsedRecord, String>) {
        match self {
            AnyParser::Nginx(p) => p.parse(line),
            AnyParser::Json(p) => p.parse(line),
            AnyParser::Regex(p) => p.parse(line),
        }
    }
}

} // verus!

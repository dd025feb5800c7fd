//! Running lines through a parser and a chain of transformers, and the
//! bookkeeping of a run.

use vstd::prelude::*;
use crate::error::{error_text, EtlError, EtlErrorView, LineResult, LineResultView};
use crate::etl_core::parser::{parse_view, AnyParser, Parser};
use crate::etl_core::transformer::{chain_outcome, query_view, stage_input, AnyTransformer, Transformer, TransformerChain};
use crate::record::{ParsedRecord, RecordView};
use crate::transformers::filter::NumericQuery;

verus! {

/// Counts kept over a run.
#[derive(Debug)]
pub struct ProcessStats {
    pub total_lilnes: u64,
    pub parsed_ok: u64,
    pub parsed_failed: u64,
    pub filtered: u64,
    pub written: u64,
}

/// What becomes of a line, given what the parser made of it and the answers
/// to the stages' numeric comparisons.
pub open spec fn line_outcome(
    line: Seq<char>,
    parsed: Result<RecordView, Seq<char>>,
    stages: Seq<AnyTransformer>,
    answers: Seq<bool>,
) -> LineResultView {
    match parsed {
        Err(reason) => LineResultView::Failed { line, error: EtlErrorView::ParseError { line, reason } },
        Ok(record) => match chain_outcome(stages, record, answers, 0) {
            Ok(Some(r)) => LineResultView::Successs(r),
            Ok(None) => LineResultView::Filtered,
            Err(e) => LineResultView::Failed { line, error: EtlErrorView::Transform(e) },
        },
    }
}

/// The dead-letter entry for a line that failed: the line, `|`, the error's text, a newline.
pub open spec fn dead_letter(line: Seq<char>, error: EtlErrorView) -> Seq<char> {
    line + "|"@ + error_text(error) + "\n"@
}

/// The dead-letter entry for a line that failed.
pub fn dlq_entry(line: &str, error: &EtlError) -> (r: String)
    ensures
        r@ == dead_letter(line@, error@),
{
    let msg = error.message();
    line.to_owned().concat("|").concat(msg.as_str()).concat("\n")
}

/// A parser and a chain of transformers.
pub struct Pipeline {
    parser: AnyParser,
    transformer: TransformerChain,
}

impl Pipeline {
    /// The parser.
    pub closed spec fn parser(&self) -> AnyParser {
        self.parser
    }

    /// The stages of the chain.
    pub closed spec fn stages(&self) -> Seq<AnyTransformer> {
        self.transformer.stages()
    }

    /// A pipeline of the parser and the transformers, in order.
    pub fn new(parser: AnyParser, transformers: Vec<AnyTransformer>) -> (r: Self)
        ensures
            r.parser() == parser,
            r.stages() == transformers@,
    {
        Pipeline { parser, transformer: TransformerChain::new(transformers) }
    }

    /// Parses one line.
    pub fn parse_line(&self, line: &str) -> (r: Result<ParsedRecord, String>)
        ensures
            parse_view(r) == self.parser().parse_spec(line@),
    {
        self.parser.parse(line)
    }

    /// For each stage, the numeric comparison it needs to decide on the
    /// record that reaches it in a run on `record`.
    pub fn numeric_queries(&self, record: &ParsedRecord) -> (r: Vec<Option<NumericQuery>>)
        ensures
            r.len() == self.stages().len(),
            forall|i: int| 0 <= i < r.len() ==> query_view(#[trigger] r@[i]) == self.stages()[i].query(stage_input(self.stages(), record@, i)),
    {
        self.transformer.numeric_queries(record)
    }

    /// What becomes of `line`, given what the parser made of it (`parsed`) and
    /// `answers[i]` for stage `i`'s numeric comparison.
    pub fn process_line(&self, line: String, parsed: Result<ParsedRecord, String>, answers: &Vec<bool>) -> (r: LineResult)
        ensures
            r@ == line_outcome(line@, parse_view(parsed), self.stages(), answers@),
    {
        let record = match parsed {
            Ok(r) => r,
            Err(e) => {
                return LineResult::Failed {
                    line: line.clone(),
                    error: EtlError::ParseError { line: line.clone(), reason: e },
                };
            },
        };
        match self.transformer.transform(record, answers) {
            Ok(Some(r)) => LineResult::Successs(r),
            Ok(None) => LineResult::Filtered,
            Err(e) => LineResult::Failed { line: line.clone(), error: EtlError::Transform(e) },
        }
    }
}

/// What a run does after a line's outcome is known.
#[derive(Debug)]
pub enum LineAction {
    /// Write the record to the sink, then report with [`ProcessStats::on_write`].
    Write(ParsedRecord),
    /// Send this entry to the dead-letter queue.
    DeadLetter(String),
    /// Nothing more.
    Skip,
}

/// The counts after one more line with the given outcome.
pub open spec fn stats_after_line(s: ProcessStats, r: LineResultView) -> ProcessStats {
    match r {
        LineResultView::Successs(_) => ProcessStats {
            total_lilnes: (s.total_lilnes + 1) as u64,
            parsed_ok: (s.parsed_ok + 1) as u64,
            ..s
        },
        LineResultView::Filtered => ProcessStats {
            total_lilnes: (s.total_lilnes + 1) as u64,
            filtered: (s.filtered + 1) as u64,
            ..s
        },
        LineResultView::Failed { .. } => ProcessStats {
            total_lilnes: (s.total_lilnes + 1) as u64,
            parsed_failed: (s.parsed_failed + 1) as u64,
            ..s
        },
    }
}

/// The counts after the sink took a record (`ok`) or refused it.
pub open spec fn stats_after_write(s: ProcessStats, ok: bool) -> ProcessStats {
    if ok {
        ProcessStats { written: (s.written + 1) as u64, ..s }
    } else {
        ProcessStats { parsed_failed: (s.parsed_failed + 1) as u64, ..s }
    }
}

/// No count can overflow on the next line.
pub open spec fn has_room(s: ProcessStats) -> bool {
    &&& s.total_lilnes < u64::MAX
    &&& s.parsed_ok < u64::MAX
    &&& s.parsed_failed < u64::MAX
    &&& s.filtered < u64::MAX
    &&& s.written < u64::MAX
}

/// Whether no count can overflow on the next line.
pub fn has_room_now(s: &ProcessStats) -> (b: bool)
    ensures
        b == has_room(*s),
{
    s.total_lilnes < u64::MAX && s.parsed_ok < u64::MAX && s.parsed_failed < u64::MAX && s.filtered < u64::MAX
        && s.written < u64::MAX
}

impl ProcessStats {
    /// All counts zero.
    pub fn new() -> (r: Self)
        ensures
            r == (ProcessStats { total_lilnes: 0, parsed_ok: 0, parsed_failed: 0, filtered: 0, written: 0 }),
    {
        ProcessStats { total_lilnes: 0, parsed_ok: 0, parsed_failed: 0, filtered: 0, written: 0 }
    }

    /// Counts a line's outcome and says what to do next: write a record,
    /// send a failed line to the dead-letter queue, or nothing.
    pub fn on_line(&mut self, result: LineResult) -> (a: LineAction)
        requires
            has_room(*old(self)),
        ensures
            *final(self) == stats_after_line(*old(self), result@),
            result@ matches LineResultView::Successs(rec) ==> (a matches LineAction::Write(w) && w@ == rec),
            result@ matches LineResultView::Filtered ==> a matches LineAction::Skip,
            result@ matches LineResultView::Failed { line, error } ==> (a matches LineAction::DeadLetter(d) && d@ == dead_letter(line, error)),
    {
        self.total_lilnes = self.total_lilnes + 1;
        match result {
            LineResult::Successs(record) => {
                self.parsed_ok = self.parsed_ok + 1;
                LineAction::Write(record)
            },
            LineResult::Filtered => {
                self.filtered = self.filtered + 1;
                LineAction::Skip
            },
            LineResult::Failed { line, error } => {
                self.parsed_failed = self.parsed_failed + 1;
                LineAction::DeadLetter(dlq_entry(line.as_str(), &error))
            },
        }
    }

    /// Counts the sink's answer for the record of `line`; a refusal gives the
    /// dead-letter entry for the line with the sink's error.
    pub fn on_write(&mut self, line: &str, result: Result<(), String>) -> (d: Option<String>)
        requires
            has_room(*old(self)),
        ensures
            *final(self) == stats_after_write(*old(self), result is Ok),
            result is Ok ==> d is None,
            result matches Err(e) ==> (d matches Some(t) && t@ == dead_letter(line@, EtlErrorView::Sink(e@))),
    {
        match result {
            Ok(()) => {
                self.written = self.written + 1;
                None
            },
            Err(e) => {
                self.parsed_failed = self.parsed_failed + 1;
                Some(dlq_entry(line, &EtlError::Sink(e)))
            },
        }
    }
}

impl Default for ProcessStats {
    fn default() -> (r: Self)
        ensures
            r == (ProcessStats { total_lilnes: 0, parsed_ok: 0, parsed_failed: 0, filtered: 0, written: 0 }),
    {
        ProcessStats::new()
    }
}

} // verus!

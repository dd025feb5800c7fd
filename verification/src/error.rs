//! Errors, and the outcome of processing one line.

use vstd::prelude::*;
use crate::record::{ParsedRecord, RecordView};

verus! {

/// What can go wrong while running a pipeline.
#[derive(Debug)]
pub enum EtlError {
    Config(String),
    Io(String),
    ParseError { line: String, reason: String },
    Transform(String),
    Sink(String),
    Unknown(String),
}

/// The mathematical form of an [`EtlError`].
pub enum EtlErrorView {
    Config(Seq<char>),
    Io(Seq<char>),
    ParseError { line: Seq<char>, reason: Seq<char> },
    Transform(Seq<char>),
    Sink(Seq<char>),
    Unknown(Seq<char>),
}

impl View for EtlError {
    type V = EtlErrorView;

    open spec fn view(&self) -> EtlErrorView {
        match self {
            EtlError::Config(m) => EtlErrorView::Config(m@),
            EtlError::Io(m) => EtlErrorView::Io(m@),
            EtlError::ParseError { line, reason } => EtlErrorView::ParseError { line: line@, reason: reason@ },
            EtlError::Transform(m) => EtlErrorView::Transform(m@),
            EtlError::Sink(m) => EtlErrorView::Sink(m@),
            EtlError::Unknown(m) => EtlErrorView::Unknown(m@),
        }
    }
}

/// The text an error is shown as.
pub open spec fn error_text(e: EtlErrorView) -> Seq<char> {
    match e {
        EtlErrorView::Config(m) => "配置错误： "@ + m,
        EtlErrorView::Io(m) => "IO错误： "@ + m,
        EtlErrorView::ParseError { line, reason } => "解析错误： line="@ + line + "， 原因： "@ + reason,
        EtlErrorView::Transform(m) => "转换错误： "@ + m,
        EtlErrorView::Sink(m) => "Sink错误： "@ + m,
        EtlErrorView::Unknown(m) => "未知错误： "@ + m,
    }
}

impl EtlError {
    /// The text this error is shown as.
    pub open spec fn message_spec(&self) -> Seq<char> {
        error_text(self@)
    }

    /// The text this error is shown as.
    pub fn message(&self) -> (s: String)
        ensures
            s@ == self.message_spec(),
    {
        match self {
            EtlError::Config(m) => String::from_str("配置错误： ").concat(m.as_str()),
            EtlError::Io(m) => String::from_str("IO错误： ").concat(m.as_str()),
            EtlError::ParseError { line, reason } => {
                let s = String::from_str("解析错误： line=").concat(line.as_str());
                s.concat("， 原因： ").concat(reason.as_str())
            },
            EtlError::Transform(m) => String::from_str("转换错误： ").concat(m.as_str()),
            EtlError::Sink(m) => String::from_str("Sink错误： ").concat(m.as_str()),
            EtlError::Unknown(m) => String::from_str("未知错误： ").concat(m.as_str()),
        }
    }
}

/// The outcome of one line.
#[derive(Debug)]
pub enum LineResult {
    /// Parsed and kept by every transformer.
    Successs(ParsedRecord),
    /// Dropped by a transformer: the normal course, not an error.
    Filtered,
    /// Failed to parse or to transform.
    Failed { line: String, error: EtlError },
}

/// The mathematical form of a [`LineResult`].
pub enum LineResultView {
    Successs(RecordView),
    Filtered,
    Failed { line: Seq<char>, error: EtlErrorView },
}

impl View for LineResult {
    type V = LineResultView;

    open spec fn view(&self) -> LineResultView {
        match self {
            LineResult::Successs(r) => LineResultView::Successs(r@),
            LineResult::Filtered => LineResultView::Filtered,
            LineResult::Failed { line, error } => LineResultView::Failed { line: line@, error: error@ },
        }
    }
}

} // verus!

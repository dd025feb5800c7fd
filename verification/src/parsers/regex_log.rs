//! Lines read by a pattern of the user's: each configured field takes the
//! text of the capture group of the same name.

use vstd::prelude::*;
use crate::config::copy_texts;
use crate::etl_core::parser::Parser;
use crate::parsers::nginx_log::{capture_text, group_or_empty, invalid_pattern_message, nginx_failure};
use crate::pattern::{
    compile_regex, regex_accepts, regex_capture_groups, regex_captures, regex_group_names, regex_names,
    CompiledRegex,
};
use crate::record::{ParsedRecord, RecordView};

verus! {

/// The fields of a matched line: each configured name, in order, with the
/// text of its group (empty where the group is missing or took no part).
pub open spec fn regex_fields(
    fields: Seq<Seq<char>>,
    names: Seq<Option<Seq<char>>>,
    groups: Seq<Option<Seq<char>>>,
) -> Seq<(Seq<char>, Seq<char>)> {
    fields.map_values(|f: Seq<char>| (f, group_or_empty(names, groups, f)))
}

/// What a parser with `pattern` and `fields` makes of a line: a record
/// without an instant, or the failure message where the pattern does not match.
pub open spec fn regex_parse(pattern: Seq<char>, fields: Seq<Seq<char>>, line: Seq<char>) -> Result<RecordView, Seq<char>> {
    match regex_capture_groups(pattern, line) {
        None => Err(nginx_failure(line)),
        Some(groups) => Ok(RecordView { timestamp: None, fields: regex_fields(fields, regex_group_names(pattern), groups) }),
    }
}

/// Reads lines by a pattern and a list of field names.
pub struct RegexParser {
    regex: CompiledRegex,
    fields: Vec<String>,
}

impl RegexParser {
    /// The pattern lines are matched against.
    pub closed spec fn pattern(&self) -> Seq<char> {
        self.regex@
    }

    /// The names of the fields, in order.
    pub closed spec fn field_names(&self) -> Seq<Seq<char>> {
        self.fields.deep_view()
    }

    /// A parser of `pattern` and `fields`, where the pattern compiles.
    pub fn new(pattern: &str, fields: &Vec<String>) -> (r: Result<Self, String>)
        ensures
            r is Ok <==> regex_accepts(pattern@),
            r matches Ok(p) ==> p.pattern() == pattern@ && p.field_names() == fields.deep_view(),
            r matches Err(m) ==> m@ == invalid_pattern_message(pattern@),
    {
        match compile_regex(pattern) {
            Ok(regex) => Ok(RegexParser { regex, fields: copy_texts(fields) }),
            Err(_) => Err(String::from_str("无效的正则表达式: ").concat(pattern)),
        }
    }

    /// The record of a matched line, from the regex's group names and the captured groups.
    pub fn record_from_captures(&self, names: &Vec<Option<String>>, groups: &Vec<Option<String>>) -> (r: ParsedRecord)
        ensures
            r@ == (RecordView {
                timestamp: None,
                fields: regex_fields(self.field_names(), names.deep_view(), groups.deep_view()),
            }),
    {
        let ghost want = regex_fields(self.field_names(), names.deep_view(), groups.deep_view());
        let mut out: Vec<(String, String)> = Vec::new();
        let mut i: usize = 0;
        while i < self.fields.len()
            invariant
                i <= self.fields.len(),
                want == regex_fields(self.field_names(), names.deep_view(), groups.deep_view()),
                want.len() == self.fields.len(),
                out.deep_view() == want.take(i as int),
            decreases self.fields.len() - i,
        {
            let name = &self.fields[i];
            let value = capture_text(names, groups, name.as_str());
            let ghost before = out.deep_view();
            out.push((name.clone(), value));
            assert(self.field_names()[i as int] == self.fields@[i as int]@);
            assert(out.deep_view() =~= before.push(want[i as int]));
            assert(want.take(i + 1) =~= want.take(i as int).push(want[i as int]));
            i = i + 1;
        }
        assert(want.take(want.len() as int) =~= want);
        ParsedRecord { timestamp: None, fields: out }
    }
}

impl Parser for RegexParser {
    open spec fn parse_spec(&self, line: Seq<char>) -> Result<RecordView, Seq<char>> {
        regex_parse(self.pattern(), self.field_names(), line)
    }

    /// Matches the line against the pattern and reads the configured fields
    /// from its groups; a line the pattern does not match is refused.
    fn parse(&self, line: &str) -> (r: Result<ParsedRecord, String>) {
        match regex_captures(&self.regex, line) {
            None => Err(String::from_str("日志解析失败行：").concat(line)),
            Some(groups) => {
                let names = regex_names(&self.regex);
                Ok(self.record_from_captures(&names, &groups))
            },
        }
    }
}

} // verus!

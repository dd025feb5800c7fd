//! Nginx access-log lines in the combined format.

use vstd::prelude::*;
use crate::clock::{formatted_instant, parse_with_format};
use crate::etl_core::parser::Parser;
use crate::pattern::{
    compile_regex, named_group, regex_accepts, regex_capture_groups, regex_captures,
    regex_group_names, regex_names, CompiledRegex,
};
use crate::record::{ParsedRecord, RecordView, Timestamp};
use crate::text::{split_whitespace, text_eq, words};

verus! {

/// The regular expression of a combined-format access-log line, with the
/// groups ip, auth, datetime, request, status, bytes, referer and user_agent.
pub const NGINX_LOG_PATTERN: &'static str = "^(?P<ip>[\\d.]+)\\s+-\\s+(?P<auth>\\S+)\\s+\\[(?P<datetime>[^\\]]+)\\]\\s+\"(?P<request>[^\"]*)\"\\s+(?P<status>\\d{3})\\s+(?P<bytes>\\d+|-)\\s+\"(?P<referer>[^\"]*)\"\\s+\"(?P<user_agent>[^\"]*)\"";

/// The `chrono` format of the datetime group.
pub const NGINX_TIME_FORMAT: &'static str = "%d/%b/%Y:%H:%M:%S %z";

/// [`NGINX_LOG_PATTERN`] as a sequence of characters.
pub open spec fn nginx_pattern() -> Seq<char> {
    NGINX_LOG_PATTERN@
}

/// The text of the group named `name`, or the empty text.
pub open spec fn group_or_empty(names: Seq<Option<Seq<char>>>, groups: Seq<Option<Seq<char>>>, name: Seq<char>) -> Seq<char> {
    match named_group(names, groups, name) {
        Some(t) => t,
        None => seq![],
    }
}

/// Method, URL and protocol of a request line: its first three words, where
/// it has one to three, with the missing ones empty; all empty otherwise.
pub open spec fn request_parts(request: Seq<char>) -> (Seq<char>, Seq<char>, Seq<char>) {
    let w = words(request);
    if w.len() == 3 {
        (w[0], w[1], w[2])
    } else if w.len() == 2 {
        (w[0], w[1], seq![])
    } else if w.len() == 1 {
        (w[0], seq![], seq![])
    } else {
        (seq![], seq![], seq![])
    }
}

/// The byte count as recorded: `-` stands for `0`.
pub open spec fn byte_count(bytes: Seq<char>) -> Seq<char> {
    if bytes == "-"@ {
        "0"@
    } else {
        bytes
    }
}

/// The fields of a matched line, in their fixed order, the line itself last.
pub open spec fn nginx_fields(line: Seq<char>, names: Seq<Option<Seq<char>>>, groups: Seq<Option<Seq<char>>>) -> Seq<(Seq<char>, Seq<char>)> {
    let parts = request_parts(group_or_empty(names, groups, "request"@));
    seq![
        ("ip"@, group_or_empty(names, groups, "ip"@)),
        ("auth_user"@, group_or_empty(names, groups, "auth"@)),
        ("method"@, parts.0),
        ("url"@, parts.1),
        ("protocol"@, parts.2),
        ("status"@, group_or_empty(names, groups, "status"@)),
        ("bytes"@, byte_count(group_or_empty(names, groups, "bytes"@))),
        ("referer"@, group_or_empty(names, groups, "referer"@)),
        ("user_agent"@, group_or_empty(names, groups, "user_agent"@)),
        ("raw"@, line),
    ]
}

/// The record of a matched line, given the regex's group names and the groups it captured.
pub open spec fn nginx_record(line: Seq<char>, names: Seq<Option<Seq<char>>>, groups: Seq<Option<Seq<char>>>) -> RecordView {
    RecordView {
        timestamp: formatted_instant(group_or_empty(names, groups, "datetime"@), NGINX_TIME_FORMAT@),
        fields: nginx_fields(line, names, groups),
    }
}

/// The message for a line the pattern does not match.
pub open spec fn nginx_failure(line: Seq<char>) -> Seq<char> {
    "日志解析失败行："@ + line
}

/// What a parser matching lines against `pattern` makes of a line.
pub open spec fn nginx_parse_with(pattern: Seq<char>, line: Seq<char>) -> Result<RecordView, Seq<char>> {
    match regex_capture_groups(pattern, line) {
        None => Err(nginx_failure(line)),
        Some(groups) => Ok(nginx_record(line, regex_group_names(pattern), groups)),
    }
}

/// The message for a pattern that does not compile.
pub open spec fn invalid_pattern_message(pattern: Seq<char>) -> Seq<char> {
    "无效的正则表达式: "@ + pattern
}

/// The text of the group named `name`, or the empty text.
pub fn capture_text(names: &Vec<Option<String>>, groups: &Vec<Option<String>>, name: &str) -> (r: String)
    ensures
        r@ == group_or_empty(names.deep_view(), groups.deep_view(), name@),
{
    let ghost ns = names.deep_view();
    let ghost gs = groups.deep_view();
    let mut i: usize = 0;
    assert(ns.skip(0) =~= ns);
    assert(gs.skip(0) =~= gs);
    while i < names.len() && i < groups.len()
        invariant
            ns == names.deep_view(),
            gs == groups.deep_view(),
            ns.len() == names.len(),
            gs.len() == groups.len(),
            i <= names.len(),
            i <= groups.len(),
            named_group(ns, gs, name@) == named_group(ns.skip(i as int), gs.skip(i as int), name@),
        decreases names.len() - i,
    {
        assert(ns.skip(i as int).drop_first() =~= ns.skip(i + 1));
        assert(gs.skip(i as int).drop_first() =~= gs.skip(i + 1));
        assert(ns.skip(i as int)[0] == ns[i as int]);
        assert(gs.skip(i as int)[0] == gs[i as int]);
        let is_name = match &names[i] {
            Some(n) => text_eq(n.as_str(), name),
            None => false,
        };
        if is_name {
            assert(ns[i as int] == Some(name@));
            return match &groups[i] {
                Some(t) => t.clone(),
                None => String::new(),
            };
        }
        i = i + 1;
    }
    String::new()
}

/// Reads combined-format access-log lines, by [`NGINX_LOG_PATTERN`] or by a
/// pattern of the user's with the same group names.
pub struct NginxParser {
    regex: CompiledRegex,
}

impl NginxParser {
    /// The pattern this parser matches lines against.
    pub closed spec fn pattern(&self) -> Seq<char> {
        self.regex@
    }

    /// A parser holding [`NGINX_LOG_PATTERN`] compiled; the pattern must
    /// compile (`regex::Regex::new` accepts it).
    pub fn new() -> (r: Self)
        requires
            regex_accepts(nginx_pattern()),
        ensures
            r.pattern() == nginx_pattern(),
    {
        match compile_regex(NGINX_LOG_PATTERN) {
            Ok(regex) => NginxParser { regex },
            Err(_) => vstd::pervasive::unreached(),
        }
    }

    /// A parser, where the pattern compiles; `None` otherwise.
    pub fn try_new() -> (r: Option<Self>)
        ensures
            r is Some <==> regex_accepts(nginx_pattern()),
            r matches Some(p) ==> p.pattern() == nginx_pattern(),
    {
        if compile_regex(NGINX_LOG_PATTERN).is_ok() {
            Some(Self::new())
        } else {
            None
        }
    }

    /// A parser matching lines against `pattern`, where it compiles.
    pub fn with_regex(pattern: &str) -> (r: Result<Self, String>)
        ensures
            r is Ok <==> regex_accepts(pattern@),
            r matches Ok(p) ==> p.pattern() == pattern@,
            r matches Err(m) ==> m@ == invalid_pattern_message(pattern@),
    {
        match compile_regex(pattern) {
            Ok(regex) => Ok(NginxParser { regex }),
            Err(_) => Err(String::from_str("无效的正则表达式: ").concat(pattern)),
        }
    }

    /// Method, URL and protocol of a request line.
    pub fn parse_request(request: &str) -> (r: (String, String, String))
        ensures
            (r.0@, r.1@, r.2@) == request_parts(request@),
    {
        let parts = split_whitespace(request);
        let ghost w = parts.deep_view();
        assert(forall|i: int| 0 <= i < parts.len() ==> w[i] == #[trigger] parts[i]@);
        if parts.len() == 3 {
            (parts[0].clone(), parts[1].clone(), parts[2].clone())
        } else if parts.len() == 2 {
            (parts[0].clone(), parts[1].clone(), String::new())
        } else if parts.len() == 1 {
            (parts[0].clone(), String::new(), String::new())
        } else {
            (String::new(), String::new(), String::new())
        }
    }

    /// The instant written in a datetime group, if `chrono` reads it under [`NGINX_TIME_FORMAT`].
    pub fn parse_time(datetime: &str) -> (r: Option<Timestamp>)
        ensures
            r == formatted_instant(datetime@, NGINX_TIME_FORMAT@),
    {
        parse_with_format(datetime, NGINX_TIME_FORMAT)
    }

    /// The record of a line the pattern matched, from the regex's group names and the captured groups.
    pub fn record_from_captures(line: &str, names: &Vec<Option<String>>, groups: &Vec<Option<String>>) -> (r: ParsedRecord)
        ensures
            r@ == nginx_record(line@, names.deep_view(), groups.deep_view()),
    {
        let ip = capture_text(names, groups, "ip");
        let auth = capture_text(names, groups, "auth");
        let datetime = capture_text(names, groups, "datetime");
        let request = capture_text(names, groups, "request");
        let status = capture_text(names, groups, "status");
        let bytes = capture_text(names, groups, "bytes");
        let referer = capture_text(names, groups, "referer");
        let user_agent = capture_text(names, groups, "user_agent");

        let (method, url, protocol) = Self::parse_request(request.as_str());
        let bytes_num = if text_eq(bytes.as_str(), "-") {
            String::from_str("0")
        } else {
            bytes
        };

        let mut fields: Vec<(String, String)> = Vec::new();
        fields.push((String::from_str("ip"), ip));
        fields.push((String::from_str("auth_user"), auth));
        fields.push((String::from_str("method"), method));
        fields.push((String::from_str("url"), url));
        fields.push((String::from_str("protocol"), protocol));
        fields.push((String::from_str("status"), status));
        fields.push((String::from_str("bytes"), bytes_num));
        fields.push((String::from_str("referer"), referer));
        fields.push((String::from_str("user_agent"), user_agent));
        fields.push((String::from_str("raw"), line.to_owned()));
        let r = ParsedRecord { timestamp: Self::parse_time(datetime.as_str()), fields };
        assert(r@.fields =~= nginx_fields(line@, names.deep_view(), groups.deep_view()));
        r
    }
}

impl Parser for NginxParser {
    open spec fn parse_spec(&self, line: Seq<char>) -> Result<RecordView, Seq<char>> {
        nginx_parse_with(self.pattern(), line)
    }

    /// Matches the line against the parser's pattern and builds its record;
    /// a line the pattern does not match is refused.
    fn parse(&self, line: &str) -> (r: Result<ParsedRecord, String>) {
        match regex_captures(&self.regex, line) {
            None => Err(String::from_str("日志解析失败行：").concat(line)),
            Some(groups) => {
                let names = regex_names(&self.regex);
                Ok(Self::record_from_captures(line, &names, &groups))
            },
        }
    }
}

} // verus!

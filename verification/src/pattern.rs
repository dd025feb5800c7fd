//! Regular expressions, compiled and run by the `regex` crate.

use vstd::prelude::*;

verus! {

#[verifier::external_type_specification]
#[verifier::external_body]
pub struct ExRegex(regex::Regex);

#[verifier::external_type_specification]
#[verifier::external_body]
pub struct ExRegexError(regex::Error);

/// Whether `regex::Regex::new` accepts `pattern`.
pub uninterp spec fn regex_accepts(pattern: Seq<char>) -> bool;

/// What `regex::Regex::is_match` answers for the regex compiled from
/// `pattern` on `text`.
pub uninterp spec fn regex_finds_match(pattern: Seq<char>, text: Seq<char>) -> bool;

/// What `regex::Regex::captures` yields for the regex compiled from `pattern`
/// on `text`: `None` where there is no match, else the text of each capture
/// group by index (`None` for a group that took no part in the match).
pub uninterp spec fn regex_capture_groups(pattern: Seq<char>, text: Seq<char>) -> Option<Seq<Option<Seq<char>>>>;

/// What `regex::Regex::capture_names` yields for the regex compiled from
/// `pattern`: the name of each capture group by index, `None` for an unnamed one.
pub uninterp spec fn regex_group_names(pattern: Seq<char>) -> Seq<Option<Seq<char>>>;

/// A compiled regular expression together with the pattern it was compiled
/// from. Only [`compile_regex`] builds one, so `re` is always the compiled
/// form of `pattern`.
pub struct CompiledRegex {
    pattern: String,
    re: regex::Regex,
}

impl View for CompiledRegex {
    type V = Seq<char>;

    closed spec fn view(&self) -> Seq<char> {
        self.pattern@
    }
}

/// Calls `regex::Regex::new(pattern)` and keeps the pattern beside the
/// compiled regex. Claims: it succeeds exactly when [`regex_accepts`] holds of
/// the pattern, and a success carries that pattern.
#[verifier::external_body]
pub(crate) fn compile_regex(pattern: &str) -> (r: Result<CompiledRegex, regex::Error>)
    ensures
        r is Ok <==> regex_accepts(pattern@),
        r matches Ok(re) ==> re@ == pattern@,
{
    regex::Regex::new(pattern).map(|re| CompiledRegex { pattern: pattern.to_string(), re })
}

/// Calls `regex::Regex::is_match`. Claims only that the answer is a function
/// of the pattern and the text.
#[verifier::external_body]
pub(crate) fn regex_is_match(re: &CompiledRegex, text: &str) -> (r: bool)
    ensures
        r == regex_finds_match(re@, text@),
{
    re.re.is_match(text)
}

/// Calls `regex::Regex::captures` and copies out the text of every group.
/// Claims only that the result is a function of the pattern and the text.
#[verifier::external_body]
pub(crate) fn regex_captures(re: &CompiledRegex, text: &str) -> (r: Option<Vec<Option<String>>>)
    ensures
        r.deep_view() == regex_capture_groups(re@, text@),
{
    let caps = re.re.captures(text)?;
    let mut groups = Vec::new();
    for m in caps.iter() {
        groups.push(m.map(|m| m.as_str().to_string()));
    }
    Some(groups)
}

/// Calls `regex::Regex::capture_names` and copies out every name. Claims only
/// that the result is a function of the pattern.
#[verifier::external_body]
pub(crate) fn regex_names(re: &CompiledRegex) -> (r: Vec<Option<String>>)
    ensures
        r.deep_view() == regex_group_names(re@),
{
    let mut names = Vec::new();
    for n in re.re.capture_names() {
        names.push(n.map(|s| s.to_string()));
    }
    names
}

/// The text of the capture group named `name`: the group at the first index
/// whose name is `name`, if that index has a group that took part in the match.
pub open spec fn named_group(
    names: Seq<Option<Seq<char>>>,
    groups: Seq<Option<Seq<char>>>,
    name: Seq<char>,
) -> Option<Seq<char>>
    decreases names.len(),
{
    if names.len() == 0 || groups.len() == 0 {
        None
    } else if names[0] == Some(name) {
        groups[0]
    } else {
        named_group(names.drop_first(), groups.drop_first(), name)
    }
}

} // verus!

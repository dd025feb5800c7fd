//! Properties of the library that relate several of its functions.

use vstd::prelude::*;
use crate::config::{FilterOperator, FilterValueView};
use crate::error::LineResultView;
use crate::etl_core::transformer::{answer_at, chain_outcome, stage_input, AnyTransformer, Transformer};
use crate::parsers::nginx_log::{group_or_empty, nginx_parse_with, NGINX_TIME_FORMAT};
use crate::clock::{formatted_instant, instant_text};
use crate::config::{EnrichType, UrlPart};
use crate::error::EtlErrorView;
use crate::parsers::regex_log::regex_parse;
use crate::pipeline::line_outcome;
use crate::transformers::enrich::{authority_end, authority_start, enriched, first_stop, has_authority, scheme_end, url_part};
use crate::text::{is_white_space, joined, words};
use crate::pipeline::{has_room, stats_after_line, stats_after_write, ProcessStats};
use crate::record::{first_index, first_value, lemma_first_index, RecordView};
use crate::text::occurs_in;
use crate::pattern::{named_group, regex_capture_groups, regex_finds_match, regex_group_names};
use crate::sink::file::{field_values, formatted, json_members, put_fields, selected_values, value_or_empty, OutputFormatView};
use crate::json::{json_document, json_object_text, JsonDocumentView, JsonMemberView};
use crate::parsers::json_log::{first_time_value, json_parse, json_timestamp, renamed};
use crate::clock::{rfc3339_instant, rfc3339_text};
use crate::transformers::filter::{keeps, numeric_query_for, FilterSpec, NumericQueryView, NumericRelation};

verus! {

/// A filter keeps every record that lacks its field, whatever it compares.
pub proof fn law_missing_field_is_kept(f: FilterSpec, record: RecordView, numeric: bool)
    requires
        first_value(record.fields, f.field) is None,
    ensures
        keeps(f, record, numeric),
{
}

/// `ne` keeps exactly the records with the field that `eq` drops, and
/// `not_in` exactly those that `in` drops, for the same field and value.
pub proof fn law_negated_operators(field: Seq<char>, value: FilterValueView, record: RecordView, numeric: bool)
    requires
        first_value(record.fields, field) is Some,
    ensures
        keeps(FilterSpec { field, operator: FilterOperator::Ne, value }, record, numeric)
            == !keeps(FilterSpec { field, operator: FilterOperator::Eq, value }, record, numeric),
        keeps(FilterSpec { field, operator: FilterOperator::NotIn, value }, record, numeric)
            == !keeps(FilterSpec { field, operator: FilterOperator::In, value }, record, numeric),
{
}

/// Where a filter asks for no numeric comparison, its decision does not
/// depend on the numeric answer.
pub proof fn law_numeric_answer_only_where_asked(f: FilterSpec, record: RecordView)
    requires
        numeric_query_for(f, record) is None,
    ensures
        keeps(f, record, true) == keeps(f, record, false),
{
}

/// A chain never fails: run from any stage on the record that reaches that
/// stage, it either drops the record or passes on the record that the
/// stages make of it (filters pass it unchanged, enrichers add their field).
pub proof fn law_chain_never_fails(stages: Seq<AnyTransformer>, record: RecordView, answers: Seq<bool>, start: int)
    requires
        0 <= start <= stages.len(),
    ensures
        chain_outcome(stages, stage_input(stages, record, start), answers, start) == Ok::<Option<RecordView>, Seq<char>>(None)
            || chain_outcome(stages, stage_input(stages, record, start), answers, start)
                == Ok::<Option<RecordView>, Seq<char>>(Some(stage_input(stages, record, stages.len() as int))),
    decreases stages.len() - start,
{
    if start < stages.len() {
        law_chain_never_fails(stages, record, answers, start + 1);
    }
}

/// Where no stage of a chain asks for a numeric comparison on the record
/// that reaches it, the chain's outcome does not depend on the answers.
pub proof fn law_chain_answers_only_where_asked(
    stages: Seq<AnyTransformer>,
    record: RecordView,
    answers: Seq<bool>,
    other: Seq<bool>,
    start: int,
)
    requires
        0 <= start <= stages.len(),
        forall|i: int| 0 <= i < stages.len() ==> (#[trigger] stages[i]).query(stage_input(stages, record, i)) is None,
    ensures
        chain_outcome(stages, stage_input(stages, record, start), answers, start)
            == chain_outcome(stages, stage_input(stages, record, start), other, start),
    decreases stages.len() - start,
{
    if start < stages.len() {
        law_chain_answers_only_where_asked(stages, record, answers, other, start + 1);
        let t = stages[start];
        let input = stage_input(stages, record, start);
        assert(t.query(input) is None);
        match t {
            AnyTransformer::Filter(f) => {
                law_numeric_answer_only_where_asked(f@, input);
            },
            AnyTransformer::Enrich(_) => {},
        }
    }
}

/// A chain without stages passes every record on.
pub proof fn law_empty_chain_is_identity(record: RecordView, answers: Seq<bool>)
    ensures
        chain_outcome(Seq::empty(), record, answers, 0) == Ok::<Option<RecordView>, Seq<char>>(Some(record)),
{
}

/// A chain keeps a record exactly when every stage keeps the record that
/// reaches it.
pub proof fn law_chain_keeps_iff_every_stage_keeps(stages: Seq<AnyTransformer>, record: RecordView, answers: Seq<bool>, start: int)
    requires
        0 <= start <= stages.len(),
    ensures
        (chain_outcome(stages, stage_input(stages, record, start), answers, start) is Ok
            && chain_outcome(stages, stage_input(stages, record, start), answers, start)->Ok_0 is Some)
            <==> forall|i: int| start <= i < stages.len() ==> (#[trigger] stages[i].outcome(stage_input(stages, record, i), answer_at(answers, i))) is Ok
                && stages[i].outcome(stage_input(stages, record, i), answer_at(answers, i))->Ok_0 is Some,
    decreases stages.len() - start,
{
    if start < stages.len() {
        law_chain_keeps_iff_every_stage_keeps(stages, record, answers, start + 1);
        law_chain_never_fails(stages, record, answers, start + 1);
    }
}

/// Running `b` after what `a` kept, or passing on what `a` decided otherwise.
pub open spec fn then_run(first: Result<Option<RecordView>, Seq<char>>, b: Seq<AnyTransformer>, answers: Seq<bool>) -> Result<Option<RecordView>, Seq<char>> {
    match first {
        Ok(Some(x)) => chain_outcome(b, x, answers, 0),
        other => other,
    }
}

/// Past the stages of `a`, a run of `a + b` is a run of `b`.
proof fn lemma_chain_shift(
    a: Seq<AnyTransformer>,
    b: Seq<AnyTransformer>,
    aa: Seq<bool>,
    ab: Seq<bool>,
    record: RecordView,
    j: int,
)
    requires
        aa.len() == a.len(),
        0 <= j,
    ensures
        chain_outcome(a + b, record, aa + ab, a.len() + j) == chain_outcome(b, record, ab, j),
    decreases b.len() - j,
{
    if j < b.len() {
        assert((a + b)[a.len() + j] == b[j]);
        assert(answer_at(aa + ab, a.len() + j) == answer_at(ab, j));
        match b[j].outcome(record, answer_at(ab, j)) {
            Ok(Some(next)) => lemma_chain_shift(a, b, aa, ab, next, j + 1),
            _ => {},
        }
    }
}

/// From stage `k` of `a` on, a run of `a + b` is the rest of a run of `a`,
/// then a run of `b` on what it kept.
proof fn lemma_chain_concat_from(
    a: Seq<AnyTransformer>,
    b: Seq<AnyTransformer>,
    aa: Seq<bool>,
    ab: Seq<bool>,
    record: RecordView,
    k: int,
)
    requires
        aa.len() == a.len(),
        0 <= k <= a.len(),
    ensures
        chain_outcome(a + b, record, aa + ab, k) == then_run(chain_outcome(a, record, aa, k), b, ab),
    decreases a.len() - k,
{
    if k == a.len() {
        lemma_chain_shift(a, b, aa, ab, record, 0);
    } else {
        assert((a + b)[k] == a[k]);
        assert(answer_at(aa + ab, k) == answer_at(aa, k));
        match a[k].outcome(record, answer_at(aa, k)) {
            Ok(Some(next)) => lemma_chain_concat_from(a, b, aa, ab, next, k + 1),
            _ => {},
        }
    }
}

/// Running the concatenation of two chains is running the first, then the
/// second on the record it kept; a record the first drops or fails on is
/// dropped or failed on by the whole. `aa` and `ab` answer the numeric
/// comparisons of `a` and of `b`.
pub proof fn law_chain_concat(
    a: Seq<AnyTransformer>,
    b: Seq<AnyTransformer>,
    record: RecordView,
    aa: Seq<bool>,
    ab: Seq<bool>,
)
    requires
        aa.len() == a.len(),
    ensures
        chain_outcome(a + b, record, aa + ab, 0) == then_run(chain_outcome(a, record, aa, 0), b, ab),
{
    lemma_chain_concat_from(a, b, aa, ab, record, 0);
}

/// The counts after one line: its outcome, and for a record whether the
/// sink took it.
pub open spec fn stats_after_step(s: ProcessStats, step: (LineResultView, bool)) -> ProcessStats {
    if step.0 is Successs {
        stats_after_write(stats_after_line(s, step.0), step.1)
    } else {
        stats_after_line(s, step.0)
    }
}

/// The counts after a run over lines with the given outcomes, from `s`.
pub open spec fn run_counts(s: ProcessStats, steps: Seq<(LineResultView, bool)>) -> ProcessStats
    decreases steps.len(),
{
    if steps.len() == 0 {
        s
    } else {
        stats_after_step(run_counts(s, steps.drop_last()), steps.last())
    }
}

/// How many of the steps satisfy `p`.
pub open spec fn count_steps(steps: Seq<(LineResultView, bool)>, p: spec_fn((LineResultView, bool)) -> bool) -> nat
    decreases steps.len(),
{
    if steps.len() == 0 {
        0
    } else {
        count_steps(steps.drop_last(), p) + if p(steps.last()) {
            1nat
        } else {
            0nat
        }
    }
}

/// A run over `n` lines from zero counts counts `n` lines: `parsed_ok`
/// counts the lines that gave a record, `written` those whose record the
/// sink took, `filtered` the dropped lines, and `parsed_failed` the lines
/// that failed plus the records the sink refused. So each line is written,
/// filtered or failed; no more records are written than were parsed, and
/// parsed and filtered records together are at most the lines.
pub proof fn law_run_counts(steps: Seq<(LineResultView, bool)>)
    requires
        steps.len() < u64::MAX,
    ensures
        ({
            let z = ProcessStats { total_lilnes: 0, parsed_ok: 0, parsed_failed: 0, filtered: 0, written: 0 };
            let s = run_counts(z, steps);
            &&& s.total_lilnes == steps.len()
            &&& s.parsed_ok == count_steps(steps, |st: (LineResultView, bool)| st.0 is Successs)
            &&& s.written == count_steps(steps, |st: (LineResultView, bool)| st.0 is Successs && st.1)
            &&& s.filtered == count_steps(steps, |st: (LineResultView, bool)| st.0 is Filtered)
            &&& s.parsed_failed == count_steps(steps, |st: (LineResultView, bool)| st.0 is Failed)
                + count_steps(steps, |st: (LineResultView, bool)| st.0 is Successs && !st.1)
            &&& s.written + s.filtered + s.parsed_failed == steps.len()
            &&& s.written <= s.parsed_ok
            &&& s.parsed_ok + s.filtered <= steps.len()
        }),
    decreases steps.len(),
{
    if steps.len() > 0 {
        law_run_counts(steps.drop_last());
    }
}

/// One line moves the counts by exactly one: `total_lilnes` always, and
/// `parsed_ok`, `filtered` or `parsed_failed` as the line gave a record,
/// was dropped or failed, the other counts unchanged; the sink taking a
/// record raises `written` alone, refusing it raises `parsed_failed` alone.
pub proof fn law_counts_move_by_one(s: ProcessStats, r: LineResultView)
    requires
        has_room(s),
    ensures
        ({
            let a = stats_after_line(s, r);
            &&& a.total_lilnes == s.total_lilnes + 1
            &&& a.written == s.written
            &&& a.parsed_ok == s.parsed_ok + (if r is Successs { 1int } else { 0int })
            &&& a.filtered == s.filtered + (if r is Filtered { 1int } else { 0int })
            &&& a.parsed_failed == s.parsed_failed + (if r is Failed { 1int } else { 0int })
        }),
        ({
            let w = stats_after_write(s, true);
            &&& w.written == s.written + 1
            &&& w.parsed_failed == s.parsed_failed
            &&& w.total_lilnes == s.total_lilnes && w.parsed_ok == s.parsed_ok && w.filtered == s.filtered
        }),
        ({
            let f = stats_after_write(s, false);
            &&& f.written == s.written
            &&& f.parsed_failed == s.parsed_failed + 1
            &&& f.total_lilnes == s.total_lilnes && f.parsed_ok == s.parsed_ok && f.filtered == s.filtered
        }),
{
}

/// Every line a run has finished with is counted once as written, filtered
/// or failed: a run whose counts balance still balances after one more line
/// (and, for a record, the sink's answer).
pub open spec fn balanced(s: ProcessStats) -> bool {
    s.total_lilnes == s.written + s.filtered + s.parsed_failed
}

/// The counts balance again after each line is done.
pub proof fn law_counts_balance(s: ProcessStats, r: LineResultView, sink_ok: bool)
    requires
        balanced(s),
        has_room(s),
    ensures
        r is Successs ==> balanced(stats_after_write(stats_after_line(s, r), sink_ok)),
        !(r is Successs) ==> balanced(stats_after_line(s, r)),
        r is Successs ==> stats_after_write(stats_after_line(s, r), sink_ok).parsed_ok == s.parsed_ok + 1,
        r is Filtered ==> stats_after_line(s, r).parsed_failed == s.parsed_failed,
{
}

/// The value of the last field named `key`, if any.
pub open spec fn last_value(fields: Seq<(Seq<char>, Seq<char>)>, key: Seq<char>) -> Option<Seq<char>>
    decreases fields.len(),
{
    if fields.len() == 0 {
        None
    } else if fields.last().0 == key {
        Some(fields.last().1)
    } else {
        last_value(fields.drop_last(), key)
    }
}

/// Putting fields into a JSON object: a member named like a field holds the
/// last such field's value; any other member keeps what it had.
pub proof fn law_last_field_wins(m: Map<Seq<char>, Seq<char>>, fields: Seq<(Seq<char>, Seq<char>)>, key: Seq<char>)
    ensures
        last_value(fields, key) matches Some(v) ==> put_fields(m, fields).contains_key(key) && put_fields(m, fields)[key] == v,
        last_value(fields, key) is None ==> put_fields(m, fields).contains_key(key) == m.contains_key(key)
            && (m.contains_key(key) ==> put_fields(m, fields)[key] == m[key]),
    decreases fields.len(),
{
    if fields.len() > 0 {
        law_last_field_wins(m, fields.drop_last(), key);
    }
}

/// In a record's JSON object, a field named `timestamp` replaces the record's instant.
pub proof fn law_timestamp_field_overrides(record: RecordView)
    requires
        last_value(record.fields, "timestamp"@) is Some,
    ensures
        json_members(record)["timestamp"@] == last_value(record.fields, "timestamp"@)->0,
{
    let base = json_members(record);
    match record.timestamp {
        Some(ts) => match crate::clock::rfc3339_text(ts) {
            Some(t) => law_last_field_wins(Map::empty().insert("timestamp"@, t), record.fields, "timestamp"@),
            None => law_last_field_wins(Map::empty(), record.fields, "timestamp"@),
        },
        None => law_last_field_wins(Map::empty(), record.fields, "timestamp"@),
    }
}

/// A parsed access-log line, whatever pattern matched it, keeps the whole
/// line as its last field, `raw`, has ten fields, and never records the byte
/// count as `-`.
pub proof fn law_nginx_record_shape(pattern: Seq<char>, line: Seq<char>)
    requires
        nginx_parse_with(pattern, line) is Ok,
    ensures
        nginx_parse_with(pattern, line)->Ok_0.fields.len() == 10,
        nginx_parse_with(pattern, line)->Ok_0.fields[9] == ("raw"@, line),
        nginx_parse_with(pattern, line)->Ok_0.fields[6].0 == "bytes"@,
        nginx_parse_with(pattern, line)->Ok_0.fields[6].1 != "-"@,
{
    reveal_strlit("-");
    reveal_strlit("0");
    assert("0"@[0] != "-"@[0]);
    assert("0"@ != "-"@);
}


/// `k` is the index of the first field named `key`.
pub open spec fn is_first_named(fields: Seq<(Seq<char>, Seq<char>)>, key: Seq<char>, k: int) -> bool {
    &&& 0 <= k < fields.len()
    &&& fields[k].0 == key
    &&& forall|j: int| 0 <= j < k ==> fields[j].0 != key
}

/// A record's value for a name is the value of the first field so named;
/// a record without such a field has none.
pub proof fn law_first_field_decides(fields: Seq<(Seq<char>, Seq<char>)>, key: Seq<char>, k: int)
    ensures
        is_first_named(fields, key, k) ==> first_value(fields, key) == Some(fields[k].1),
        (forall|j: int| 0 <= j < fields.len() ==> fields[j].0 != key) ==> first_value(fields, key) is None,
{
    lemma_first_index(fields, key);
    if is_first_named(fields, key, k) {
        match first_index(fields, key) {
            Some(i) => {
                if i < k {
                    assert(fields[i].0 != key);
                } else if k < i {
                    assert(fields[k].0 != key);
                }
            },
            None => {
                assert(fields[k].0 != key);
            },
        }
    }
}

/// How a filter decides on a record whose first field named like the
/// filter's field (at `k`) holds `v`: `in` keeps it exactly when some list
/// item equals `v` and `not_in` exactly when none does (a single text
/// counts as a one-item list); `eq` and `ne` compare the text, or take the
/// numeric answer for a number; `gt` and `lt` take the numeric answer;
/// `contains` keeps it when the text occurs in `v` (for a list, when `v`
/// occurs in some item); `regex` when the pattern matches `v`.
pub proof fn law_filter_decides_on_first_field(f: FilterSpec, record: RecordView, numeric: bool, k: int)
    requires
        is_first_named(record.fields, f.field, k),
    ensures
        ({
            let v = record.fields[k].1;
            let kept = keeps(f, record, numeric);
            &&& f.operator == FilterOperator::In ==> (f.value matches FilterValueView::List(l) ==> (kept <==> exists|i: int|
                0 <= i < l.len() && #[trigger] l[i] == v))
            &&& f.operator == FilterOperator::NotIn ==> (f.value matches FilterValueView::List(l) ==> (kept <==> forall|i: int|
                0 <= i < l.len() ==> #[trigger] l[i] != v))
            &&& f.operator == FilterOperator::In ==> (f.value matches FilterValueView::Single(s) ==> (kept <==> s == v))
            &&& f.operator == FilterOperator::NotIn ==> (f.value matches FilterValueView::Single(s) ==> (kept <==> s != v))
            &&& (f.operator == FilterOperator::In && f.value is Number) ==> !kept
            &&& (f.operator == FilterOperator::NotIn && f.value is Number) ==> kept
            &&& f.operator == FilterOperator::Eq ==> (f.value matches FilterValueView::Single(s) ==> (kept <==> s == v))
            &&& f.operator == FilterOperator::Ne ==> (f.value matches FilterValueView::Single(s) ==> (kept <==> s != v))
            &&& (f.operator == FilterOperator::Eq && f.value is Number) ==> kept == numeric
            &&& (f.operator == FilterOperator::Ne && f.value is Number) ==> kept == !numeric
            &&& (f.operator == FilterOperator::Eq && f.value is List) ==> !kept
            &&& (f.operator == FilterOperator::Ne && f.value is List) ==> kept
            &&& ((f.operator == FilterOperator::Gt || f.operator == FilterOperator::Lt) && !(f.value is List)) ==> kept == numeric
            &&& ((f.operator == FilterOperator::Gt || f.operator == FilterOperator::Lt) && f.value is List) ==> !kept
            &&& f.operator == FilterOperator::Contains ==> (f.value matches FilterValueView::Single(s) ==> (kept <==> exists|p: int|
                0 <= p && p + s.len() <= v.len() && #[trigger] v.subrange(p, p + s.len()) == s))
            &&& f.operator == FilterOperator::Contains ==> (f.value matches FilterValueView::List(l) ==> (kept <==> exists|i: int, p: int|
                0 <= i < l.len() && 0 <= p && p + v.len() <= l[i].len() && #[trigger] l[i].subrange(p, p + v.len()) == v))
            &&& (f.operator == FilterOperator::Contains && f.value is Number) ==> !kept
            &&& f.operator == FilterOperator::Regex ==> (f.value matches FilterValueView::Single(p) ==> kept == regex_finds_match(p, v))
            &&& (f.operator == FilterOperator::Regex && !(f.value is Single)) ==> !kept
        }),
        ({
            let v = record.fields[k].1;
            let q = numeric_query_for(f, record);
            &&& (f.operator == FilterOperator::Eq || f.operator == FilterOperator::Ne) ==> (f.value matches FilterValueView::Number(n)
                ==> q == Some(NumericQueryView { value: v, relation: NumericRelation::Equal, operand: n }))
            &&& f.operator == FilterOperator::Gt ==> (f.value matches FilterValueView::Number(n) ==> q == Some(
                NumericQueryView { value: v, relation: NumericRelation::Greater, operand: n },
            ))
            &&& f.operator == FilterOperator::Gt ==> (f.value matches FilterValueView::Single(n) ==> q == Some(
                NumericQueryView { value: v, relation: NumericRelation::Greater, operand: n },
            ))
            &&& f.operator == FilterOperator::Lt ==> (f.value matches FilterValueView::Number(n) ==> q == Some(
                NumericQueryView { value: v, relation: NumericRelation::Less, operand: n },
            ))
            &&& f.operator == FilterOperator::Lt ==> (f.value matches FilterValueView::Single(n) ==> q == Some(
                NumericQueryView { value: v, relation: NumericRelation::Less, operand: n },
            ))
            &&& (f.value is List || f.operator == FilterOperator::In || f.operator == FilterOperator::NotIn
                || f.operator == FilterOperator::Contains || f.operator == FilterOperator::Regex
                || ((f.operator == FilterOperator::Eq || f.operator == FilterOperator::Ne) && f.value is Single)) ==> q is None
        }),
{
    law_first_field_decides(record.fields, f.field, k);
    let v = record.fields[k].1;
    match f.value {
        FilterValueView::List(l) => {
            if l.contains(v) {
                let i = choose|i: int| 0 <= i < l.len() && l[i] == v;
                assert(l[i] == v);
            }
            if f.operator == FilterOperator::Contains {
                if keeps(f, record, numeric) {
                    let i = choose|i: int| 0 <= i < l.len() && #[trigger] occurs_in(v, l[i]);
                    let p = choose|p: int| 0 <= p && p + v.len() <= l[i].len() && #[trigger] l[i].subrange(p, p + v.len()) == v;
                    assert(l[i].subrange(p, p + v.len()) == v);
                }
                if exists|i: int, p: int| 0 <= i < l.len() && 0 <= p && p + v.len() <= l[i].len() && #[trigger] l[i].subrange(p, p + v.len()) == v {
                    let (i, p) = choose|i: int, p: int| 0 <= i < l.len() && 0 <= p && p + v.len() <= l[i].len() && #[trigger] l[i].subrange(p, p + v.len()) == v;
                    assert(occurs_in(v, l[i]));
                }
            }
        },
        FilterValueView::Single(s) => {
            if f.operator == FilterOperator::Contains {
                if keeps(f, record, numeric) {
                    let p = choose|p: int| 0 <= p && p + s.len() <= v.len() && #[trigger] v.subrange(p, p + s.len()) == s;
                    assert(v.subrange(p, p + s.len()) == s);
                }
            }
        },
        FilterValueView::Number(_) => {},
    }
}

/// A filter keeps every record without a field of its field's name.
pub proof fn law_filter_keeps_records_without_the_field(f: FilterSpec, record: RecordView, numeric: bool)
    requires
        forall|j: int| 0 <= j < record.fields.len() ==> record.fields[j].0 != f.field,
    ensures
        keeps(f, record, numeric),
        numeric_query_for(f, record) is None,
{
    law_first_field_decides(record.fields, f.field, 0);
}


/// `k` is the first index of a capture group named `name`.
pub open spec fn is_first_group(names: Seq<Option<Seq<char>>>, name: Seq<char>, k: int) -> bool {
    &&& 0 <= k < names.len()
    &&& names[k] == Some(name)
    &&& forall|j: int| 0 <= j < k ==> names[j] != Some(name)
}

/// The text of the group named `name` in a match: what the first group of
/// that name captured, empty where it took no part or there is none.
pub open spec fn group_text(names: Seq<Option<Seq<char>>>, groups: Seq<Option<Seq<char>>>, name: Seq<char>) -> Seq<char> {
    if exists|k: int| is_first_group(names, name, k) && k < groups.len() {
        let k = choose|k: int| is_first_group(names, name, k) && k < groups.len();
        match groups[k] {
            Some(t) => t,
            None => seq![],
        }
    } else {
        seq![]
    }
}

/// A group name is looked up at its first index; a name that no group
/// within the match has gives nothing.
pub proof fn law_named_group_is_first(names: Seq<Option<Seq<char>>>, groups: Seq<Option<Seq<char>>>, name: Seq<char>)
    ensures
        forall|k: int| is_first_group(names, name, k) && k < groups.len() ==> named_group(names, groups, name) == groups[k],
        (forall|j: int| 0 <= j < names.len() && j < groups.len() ==> names[j] != Some(name)) ==> named_group(names, groups, name) is None,
        group_or_empty(names, groups, name) == group_text(names, groups, name),
    decreases names.len(),
{
    if names.len() > 0 && groups.len() > 0 && names[0] != Some(name) {
        let n2 = names.drop_first();
        let g2 = groups.drop_first();
        law_named_group_is_first(n2, g2, name);
        assert forall|k: int| is_first_group(names, name, k) && k < groups.len() implies is_first_group(n2, name, k - 1) && k - 1 < g2.len()
            && g2[k - 1] == groups[k] by {
            assert(k != 0);
            assert forall|j: int| 0 <= j < k - 1 implies n2[j] != Some(name) by {
                assert(n2[j] == names[j + 1]);
            }
        }
        assert forall|k: int| is_first_group(n2, name, k) && k < g2.len() implies is_first_group(names, name, k + 1) && k + 1 < groups.len() by {
            assert forall|j: int| 0 <= j < k + 1 implies names[j] != Some(name) by {
                if j > 0 {
                    assert(names[j] == n2[j - 1]);
                }
            }
        }
        if (forall|j: int| 0 <= j < names.len() && j < groups.len() ==> names[j] != Some(name)) {
            assert forall|j: int| 0 <= j < n2.len() && j < g2.len() implies n2[j] != Some(name) by {
                assert(n2[j] == names[j + 1]);
            }
        }
        if exists|k: int| is_first_group(names, name, k) && k < groups.len() {
            let k = choose|k: int| is_first_group(names, name, k) && k < groups.len();
            assert(is_first_group(n2, name, k - 1) && k - 1 < g2.len());
            let k2 = choose|k: int| is_first_group(n2, name, k) && k < g2.len();
            assert(k2 == k - 1) by {
                if k2 < k - 1 {
                    assert(n2[k2] != Some(name));
                } else if k2 > k - 1 {
                    assert(n2[k - 1] != Some(name));
                }
            }
        } else {
            if exists|k: int| is_first_group(n2, name, k) && k < g2.len() {
                let k = choose|k: int| is_first_group(n2, name, k) && k < g2.len();
                assert(is_first_group(names, name, k + 1) && k + 1 < groups.len());
            }
        }
    } else if names.len() > 0 && groups.len() > 0 {
        assert(is_first_group(names, name, 0) && 0 < groups.len());
        assert forall|k: int| is_first_group(names, name, k) && k < groups.len() implies k == 0 by {
            if k > 0 {
                assert(names[0] != Some(name));
            }
        }
    } else {
        assert forall|k: int| !(is_first_group(names, name, k) && k < groups.len()) by {}
    }
}

/// An access-log line that the pattern does not match is refused with its
/// text; a matched line gives, in order, `ip`, `auth_user`, `method`, `url`,
/// `protocol`, `status`, `bytes`, `referer`, `user_agent` and `raw`: each
/// simple field is the whole text of its group (`auth_user` that of
/// `auth`), `bytes` with `-` written as `0`, the three request fields are
/// the words of the `request` group (where it has one to three), `raw` is
/// the line, and the instant is the `datetime` group read under the nginx
/// time format.
pub proof fn law_nginx_fields_from_groups(pattern: Seq<char>, line: Seq<char>)
    ensures
        regex_capture_groups(pattern, line) is None ==> nginx_parse_with(pattern, line) == Err::<RecordView, Seq<char>>(
            "日志解析失败行："@ + line,
        ),
        regex_capture_groups(pattern, line) matches Some(groups) ==> ({
            let names = regex_group_names(pattern);
            let g = |n: Seq<char>| group_text(names, groups, n);
            let w = words(g("request"@));
            let r = nginx_parse_with(pattern, line)->Ok_0;
            &&& nginx_parse_with(pattern, line) is Ok
            &&& r.timestamp == formatted_instant(g("datetime"@), NGINX_TIME_FORMAT@)
            &&& r.fields.len() == 10
            &&& r.fields[0] == ("ip"@, g("ip"@))
            &&& r.fields[1] == ("auth_user"@, g("auth"@))
            &&& r.fields[2].0 == "method"@
            &&& r.fields[3].0 == "url"@
            &&& r.fields[4].0 == "protocol"@
            &&& r.fields[5] == ("status"@, g("status"@))
            &&& r.fields[6] == ("bytes"@, if g("bytes"@) == "-"@ { "0"@ } else { g("bytes"@) })
            &&& r.fields[7] == ("referer"@, g("referer"@))
            &&& r.fields[8] == ("user_agent"@, g("user_agent"@))
            &&& r.fields[9] == ("raw"@, line)
            &&& (1 <= w.len() <= 3 ==> r.fields[2].1 == w[0])
            &&& (2 <= w.len() <= 3 ==> r.fields[3].1 == w[1])
            &&& (w.len() == 3 ==> r.fields[4].1 == w[2])
            &&& (w.len() < 3 ==> r.fields[4].1 == Seq::<char>::empty())
            &&& (w.len() < 2 || w.len() > 3 ==> r.fields[3].1 == Seq::<char>::empty())
            &&& (w.len() == 0 || w.len() > 3 ==> r.fields[2].1 == Seq::<char>::empty())
        }),
{
    if let Some(groups) = regex_capture_groups(pattern, line) {
        let names = regex_group_names(pattern);
        law_named_group_is_first(names, groups, "ip"@);
        law_named_group_is_first(names, groups, "auth"@);
        law_named_group_is_first(names, groups, "datetime"@);
        law_named_group_is_first(names, groups, "request"@);
        law_named_group_is_first(names, groups, "status"@);
        law_named_group_is_first(names, groups, "bytes"@);
        law_named_group_is_first(names, groups, "referer"@);
        law_named_group_is_first(names, groups, "user_agent"@);
    }
}


/// Where item `i` of `parts` starts in `joined(parts, sep)`: after every
/// earlier item and one separator for each.
pub open spec fn item_start(parts: Seq<Seq<char>>, sep: Seq<char>, i: int) -> int
    decreases i,
{
    if i <= 0 {
        0
    } else {
        item_start(parts, sep, i - 1) + parts[i - 1].len() + sep.len()
    }
}

/// Where an item starts depends only on the items before it.
proof fn lemma_item_start_prefix(parts: Seq<Seq<char>>, pre: Seq<Seq<char>>, sep: Seq<char>, i: int)
    requires
        0 <= i <= pre.len() <= parts.len(),
        forall|j: int| 0 <= j < pre.len() ==> pre[j] == parts[j],
    ensures
        item_start(parts, sep, i) == item_start(pre, sep, i),
    decreases i,
{
    if i > 0 {
        lemma_item_start_prefix(parts, pre, sep, i - 1);
    }
}

/// Joining puts the items in order with one separator between each two
/// neighbours and nothing else: item `i` stands at `item_start(parts, sep, i)`,
/// a separator stands just before every item but the first, and the text
/// ends with the last item.
pub proof fn law_joined_layout(parts: Seq<Seq<char>>, sep: Seq<char>)
    ensures
        parts.len() == 0 ==> joined(parts, sep) == Seq::<char>::empty(),
        parts.len() > 0 ==> joined(parts, sep).len() == item_start(parts, sep, parts.len() - 1) + parts.last().len(),
        forall|i: int| 0 <= i < parts.len() ==> #[trigger] joined(parts, sep).subrange(item_start(parts, sep, i), item_start(parts, sep, i) + parts[i].len())
            == parts[i],
        forall|i: int| 0 < i < parts.len() ==> #[trigger] joined(parts, sep).subrange(item_start(parts, sep, i) - sep.len(), item_start(parts, sep, i))
            == sep,
    decreases parts.len(),
{
    if parts.len() == 1 {
        assert forall|i: int| 0 <= i < parts.len() implies #[trigger] joined(parts, sep).subrange(item_start(parts, sep, i), item_start(parts, sep, i) + parts[i].len())
            == parts[i] by {
            assert(i == 0);
            assert(joined(parts, sep).subrange(0, parts[0].len() as int) =~= parts[0]);
        }
    } else if parts.len() > 1 {
        let pre = parts.drop_last();
        let n = pre.len() as int;
        law_joined_layout(pre, sep);
        let a = joined(pre, sep);
        let whole = joined(parts, sep);
        assert(whole == a + sep + parts.last());
        lemma_item_start_prefix(parts, pre, sep, n - 1);
        lemma_item_start_prefix(parts, pre, sep, n);
        assert(item_start(parts, sep, n) == a.len() + sep.len());
        assert forall|i: int| 0 <= i < parts.len() implies #[trigger] whole.subrange(item_start(parts, sep, i), item_start(parts, sep, i) + parts[i].len())
            == parts[i] by {
            if i < n {
                lemma_item_start_prefix(parts, pre, sep, i);
                lemma_start_grows(pre, sep, 0, i);
                lemma_start_grows(pre, sep, i, n - 1);
                let st = item_start(pre, sep, i);
                assert(0 <= st);
                assert(st + pre[i].len() <= a.len());
                assert(a.subrange(st, st + pre[i].len()) == pre[i]);
                assert(pre[i] == parts[i]);
                assert(whole.subrange(st, st + parts[i].len()) =~= a.subrange(st, st + pre[i].len()));
            } else {
                assert(whole.subrange(item_start(parts, sep, i), item_start(parts, sep, i) + parts[i].len()) =~= parts.last());
            }
        }
        assert forall|i: int| 0 < i < parts.len() implies #[trigger] whole.subrange(item_start(parts, sep, i) - sep.len(), item_start(parts, sep, i))
            == sep by {
            if i < n {
                lemma_item_start_prefix(parts, pre, sep, i);
                lemma_start_grows(pre, sep, i, n - 1);
                lemma_start_grows(pre, sep, i - 1, i);
                lemma_start_grows(pre, sep, 0, i - 1);
                let st = item_start(pre, sep, i);
                assert(sep.len() <= st);
                assert(st <= a.len());
                assert(a.subrange(st - sep.len(), st) == sep);
                assert(whole.subrange(st - sep.len(), st) =~= a.subrange(st - sep.len(), st));
            } else {
                assert(whole.subrange(item_start(parts, sep, i) - sep.len(), item_start(parts, sep, i)) =~= sep);
            }
        }
    }
}

/// Later items start no earlier.
proof fn lemma_start_grows(parts: Seq<Seq<char>>, sep: Seq<char>, i: int, j: int)
    requires
        0 <= i <= j,
    ensures
        item_start(parts, sep, i) + (if i < j { parts[i].len() + sep.len() } else { 0 }) <= item_start(parts, sep, j),
    decreases j - i,
{
    if i < j {
        lemma_start_grows(parts, sep, i + 1, j);
    }
}


/// The value of the first field named `key`, or the empty text where no
/// field has that name.
pub open spec fn named_value(fields: Seq<(Seq<char>, Seq<char>)>, key: Seq<char>) -> Seq<char> {
    if exists|k: int| is_first_named(fields, key, k) {
        fields[choose|k: int| is_first_named(fields, key, k)].1
    } else {
        seq![]
    }
}

/// Looking a name up in a record gives the first field of that name, or
/// the empty text.
pub proof fn law_value_of_a_name(fields: Seq<(Seq<char>, Seq<char>)>, key: Seq<char>)
    ensures
        value_or_empty(fields, key) == named_value(fields, key),
{
    lemma_first_index(fields, key);
    if exists|k: int| is_first_named(fields, key, k) {
        let k = choose|k: int| is_first_named(fields, key, k);
        law_first_field_decides(fields, key, k);
    } else {
        if let Some(i) = first_index(fields, key) {
            assert(is_first_named(fields, key, i));
        }
    }
}

/// How each output format writes a record: `raw` is the first `raw` field
/// (empty without one); `csv` is every field's value, in order and empty
/// ones included, joined by `, `; `delimited` is, for each configured name
/// in order, the first field of that name (empty without one), joined by
/// the delimiter; `json` is the JSON text of the record's members.
pub proof fn law_format_lines(delimiter: char, names: Seq<Seq<char>>, record: RecordView)
    ensures
        formatted(OutputFormatView::Raw, record) == Ok::<Seq<char>, Seq<char>>(named_value(record.fields, "raw"@)),
        formatted(OutputFormatView::Csv, record) == Ok::<Seq<char>, Seq<char>>(
            joined(Seq::new(record.fields.len(), |i: int| record.fields[i].1), ", "@),
        ),
        formatted(OutputFormatView::Delimited { delimiter, fields: names }, record) == Ok::<Seq<char>, Seq<char>>(
            joined(Seq::new(names.len(), |j: int| named_value(record.fields, names[j])), seq![delimiter]),
        ),
        formatted(OutputFormatView::Json, record) == json_object_text(json_members(record)),
{
    law_value_of_a_name(record.fields, "raw"@);
    assert(field_values(record.fields) =~= Seq::new(record.fields.len(), |i: int| record.fields[i].1));
    assert forall|j: int| 0 <= j < names.len() implies value_or_empty(record.fields, names[j]) == named_value(record.fields, names[j]) by {
        law_value_of_a_name(record.fields, names[j]);
    }
    assert(selected_values(record.fields, names) =~= Seq::new(names.len(), |j: int| named_value(record.fields, names[j])));
}


/// A field name a JSON record's instant is read from.
pub open spec fn is_time_name(n: Seq<char>) -> bool {
    n == "timestamp"@ || n == "time"@
}

/// `k` is the index of the first field named `timestamp` or `time`.
pub open spec fn is_first_time_field(fields: Seq<(Seq<char>, Seq<char>)>, k: int) -> bool {
    &&& 0 <= k < fields.len()
    &&& is_time_name(fields[k].0)
    &&& forall|j: int| 0 <= j < k ==> !is_time_name(fields[j].0)
}

/// A JSON record's instant is the first field named `timestamp` or `time`,
/// wherever it stands, read as RFC 3339; without such a field there is none.
pub proof fn law_json_instant_from_first_time_field(fields: Seq<(Seq<char>, Seq<char>)>)
    ensures
        forall|k: int| is_first_time_field(fields, k) ==> json_timestamp(fields) == rfc3339_instant(fields[k].1),
        (forall|j: int| 0 <= j < fields.len() ==> !is_time_name(fields[j].0)) ==> json_timestamp(fields) is None,
{
    lemma_first_time_value(fields);
}

proof fn lemma_first_time_value(fields: Seq<(Seq<char>, Seq<char>)>)
    ensures
        forall|k: int| is_first_time_field(fields, k) ==> first_time_value(fields) == Some(fields[k].1),
        (forall|j: int| 0 <= j < fields.len() ==> !is_time_name(fields[j].0)) ==> first_time_value(fields) is None,
    decreases fields.len(),
{
    if fields.len() > 0 {
        let rest = fields.drop_first();
        lemma_first_time_value(rest);
        assert forall|k: int| is_first_time_field(fields, k) implies first_time_value(fields) == Some(fields[k].1) by {
            if k > 0 {
                assert(!is_time_name(fields[0].0));
                assert(rest[k - 1] == fields[k]);
                assert forall|j: int| 0 <= j < k - 1 implies !is_time_name(rest[j].0) by {
                    assert(rest[j] == fields[j + 1]);
                }
                assert(is_first_time_field(rest, k - 1));
            }
        }
        if forall|j: int| 0 <= j < fields.len() ==> !is_time_name(fields[j].0) {
            assert(!is_time_name(fields[0].0));
            assert forall|j: int| 0 <= j < rest.len() implies !is_time_name(rest[j].0) by {
                assert(rest[j] == fields[j + 1]);
            }
        }
    }
}

/// The name a key gets under a field map: the target of the map's first
/// entry for the key, else the key itself.
pub open spec fn renamed_to(field_map: Seq<(Seq<char>, Seq<char>)>, key: Seq<char>) -> Seq<char> {
    if exists|k: int| is_first_named(field_map, key, k) {
        field_map[choose|k: int| is_first_named(field_map, key, k)].1
    } else {
        key
    }
}

/// What a JSON parser makes of a line: a line that is not JSON is refused
/// with the reader's message; an object gives one field per member, in the
/// reader's order, named by the field map (the map's first entry for the
/// key, else the key itself) and holding a string's content, `null`,
/// `true`, `false` or the JSON text of a number, array or object; any other
/// value gives no field; the instant is read from the record's fields.
pub proof fn law_json_parse(field_map: Seq<(Seq<char>, Seq<char>)>, line: Seq<char>)
    ensures
        json_document(line) matches Err(e) ==> json_parse(field_map, line) == Err::<RecordView, Seq<char>>(e),
        json_document(line) matches Ok(JsonDocumentView::Other(_)) ==> json_parse(field_map, line)
            == Ok::<RecordView, Seq<char>>(RecordView { timestamp: None, fields: seq![] }),
        json_document(line) matches Ok(JsonDocumentView::Object(ms)) ==> ({
            let r = json_parse(field_map, line)->Ok_0;
            &&& json_parse(field_map, line) is Ok
            &&& r.timestamp == json_timestamp(r.fields)
            &&& r.fields.len() == ms.len()
            &&& forall|i: int| 0 <= i < ms.len() ==> (#[trigger] r.fields[i]).0 == renamed_to(field_map, ms[i].0)
            &&& forall|i: int| 0 <= i < ms.len() ==> (ms[i].1 matches JsonMemberView::Str(t) ==> (#[trigger] r.fields[i]).1 == t)
            &&& forall|i: int| 0 <= i < ms.len() ==> (ms[i].1 matches JsonMemberView::Number(t) ==> (#[trigger] r.fields[i]).1 == t)
            &&& forall|i: int| 0 <= i < ms.len() ==> (ms[i].1 matches JsonMemberView::Array(t) ==> (#[trigger] r.fields[i]).1 == t)
            &&& forall|i: int| 0 <= i < ms.len() ==> (ms[i].1 matches JsonMemberView::Object(t) ==> (#[trigger] r.fields[i]).1 == t)
            &&& forall|i: int| 0 <= i < ms.len() ==> (ms[i].1 is Null ==> (#[trigger] r.fields[i]).1 == "null"@)
            &&& forall|i: int| 0 <= i < ms.len() ==> (ms[i].1 matches JsonMemberView::Bool(b) ==> (#[trigger] r.fields[i]).1 == (
                if b { "true"@ } else { "false"@ }))
        }),
{
    if let Ok(JsonDocumentView::Object(ms)) = json_document(line) {
        assert forall|i: int| 0 <= i < ms.len() implies renamed(field_map, ms[i].0) == renamed_to(field_map, ms[i].0) by {
            let key = ms[i].0;
            lemma_first_index(field_map, key);
            if exists|k: int| is_first_named(field_map, key, k) {
                let k = choose|k: int| is_first_named(field_map, key, k);
                law_first_field_decides(field_map, key, k);
            } else {
                if let Some(j) = first_index(field_map, key) {
                    assert(is_first_named(field_map, key, j));
                }
            }
        }
    }
    if let Ok(JsonDocumentView::Other(_)) = json_document(line) {
        assert(first_time_value(seq![]) is None);
    }
}


/// A line read by a pattern and field names: refused with its text where
/// the pattern does not match; otherwise a record without an instant whose
/// fields are the configured names, in order, each with the whole text of
/// the first group of that name (empty where there is none or it took no part).
pub proof fn law_regex_fields_from_groups(pattern: Seq<char>, fields: Seq<Seq<char>>, line: Seq<char>)
    ensures
        regex_capture_groups(pattern, line) is None ==> regex_parse(pattern, fields, line) == Err::<RecordView, Seq<char>>(
            "日志解析失败行："@ + line,
        ),
        regex_capture_groups(pattern, line) matches Some(groups) ==> ({
            let r = regex_parse(pattern, fields, line)->Ok_0;
            &&& regex_parse(pattern, fields, line) is Ok
            &&& r.timestamp is None
            &&& r.fields.len() == fields.len()
            &&& forall|i: int| 0 <= i < fields.len() ==> #[trigger] r.fields[i] == (fields[i], group_text(
                regex_group_names(pattern),
                groups,
                fields[i],
            ))
        }),
{
    if let Some(groups) = regex_capture_groups(pattern, line) {
        assert forall|i: int| 0 <= i < fields.len() implies group_or_empty(regex_group_names(pattern), groups, fields[i]) == group_text(
            regex_group_names(pattern),
            groups,
            fields[i],
        ) by {
            law_named_group_is_first(regex_group_names(pattern), groups, fields[i]);
        }
    }
}

/// A line the parser refused fails with a parse error naming the line and
/// the reason; a parsed line never fails: it is dropped, or it succeeds
/// with the record the stages made of it, and it succeeds exactly when
/// every stage keeps the record that reaches it.
pub proof fn law_line_outcome(
    line: Seq<char>,
    parsed: Result<RecordView, Seq<char>>,
    stages: Seq<AnyTransformer>,
    answers: Seq<bool>,
)
    ensures
        parsed matches Err(reason) ==> line_outcome(line, parsed, stages, answers) == (LineResultView::Failed {
            line,
            error: EtlErrorView::ParseError { line, reason },
        }),
        parsed matches Ok(rec) ==> (line_outcome(line, parsed, stages, answers) == LineResultView::Filtered
            || line_outcome(line, parsed, stages, answers) == LineResultView::Successs(stage_input(stages, rec, stages.len() as int))),
        parsed matches Ok(rec) ==> (line_outcome(line, parsed, stages, answers) is Successs <==> forall|i: int|
            0 <= i < stages.len() ==> (#[trigger] stages[i].outcome(stage_input(stages, rec, i), answer_at(answers, i))) is Ok
                && stages[i].outcome(stage_input(stages, rec, i), answer_at(answers, i))->Ok_0 is Some),
{
    if let Ok(rec) = parsed {
        law_chain_never_fails(stages, rec, answers, 0);
        law_chain_keeps_iff_every_stage_keeps(stages, rec, answers, 0);
    }
}

/// An enricher never changes the instant and either leaves the record as
/// it is or adds exactly one field, `field`, at the end: `time_format` adds
/// the source instant (the record's own for the source `timestamp`, else
/// the first field of the source's name read as RFC 3339) written in the
/// format, where there is one and it can be written; `url_parse` adds the
/// part of the first source field's URL, where there is such a field;
/// `ip_geo` adds nothing.
pub proof fn law_enricher_adds_one_field(field: Seq<char>, source: Seq<char>, kind: EnrichType, record: RecordView, k: int)
    ensures
        ({
            let out = enriched(field, source, kind, record);
            let fs = record.fields;
            &&& out.timestamp == record.timestamp
            &&& kind is IpGeo ==> out == record
            &&& kind matches EnrichType::TimeFormat { format } ==> ({
                &&& (source == "timestamp"@ && record.timestamp is Some && instant_text(record.timestamp->0, format@) is Some)
                    ==> out.fields == fs.push((field, instant_text(record.timestamp->0, format@)->0))
                &&& source == "timestamp"@ ==> (record.timestamp is None || instant_text(record.timestamp->0, format@) is None
                    ==> out == record)
                &&& (source != "timestamp"@ && is_first_named(fs, source, k) && rfc3339_instant(fs[k].1) is Some
                    && instant_text(rfc3339_instant(fs[k].1)->0, format@) is Some) ==> out.fields == fs.push(
                    (field, instant_text(rfc3339_instant(fs[k].1)->0, format@)->0),
                )
                &&& (source != "timestamp"@ && is_first_named(fs, source, k)) ==> (rfc3339_instant(fs[k].1) is None
                    || instant_text(rfc3339_instant(fs[k].1)->0, format@) is None ==> out == record)
                &&& (source != "timestamp"@ && forall|j: int| 0 <= j < fs.len() ==> fs[j].0 != source) ==> out == record
            })
            &&& kind matches EnrichType::UrlParse { part } ==> ({
                &&& is_first_named(fs, source, k) ==> out.fields == fs.push((field, url_part(fs[k].1, part)))
                &&& (forall|j: int| 0 <= j < fs.len() ==> fs[j].0 != source) ==> out == record
            })
        }),
{
    law_first_field_decides(record.fields, source, k);
}


/// `k` is the index of the last field named `key`.
pub open spec fn is_last_named(fields: Seq<(Seq<char>, Seq<char>)>, key: Seq<char>, k: int) -> bool {
    &&& 0 <= k < fields.len()
    &&& fields[k].0 == key
    &&& forall|j: int| k < j < fields.len() ==> fields[j].0 != key
}

/// The last field of a name is the one at its last index.
proof fn lemma_last_value_at(fields: Seq<(Seq<char>, Seq<char>)>, key: Seq<char>)
    ensures
        forall|k: int| is_last_named(fields, key, k) ==> last_value(fields, key) == Some(fields[k].1),
        (forall|j: int| 0 <= j < fields.len() ==> fields[j].0 != key) ==> last_value(fields, key) is None,
    decreases fields.len(),
{
    if fields.len() > 0 {
        let pre = fields.drop_last();
        lemma_last_value_at(pre, key);
        assert forall|k: int| is_last_named(fields, key, k) implies last_value(fields, key) == Some(fields[k].1) by {
            if k < fields.len() - 1 {
                assert(fields[fields.len() - 1].0 != key);
                assert(is_last_named(pre, key, k));
            }
        }
        if forall|j: int| 0 <= j < fields.len() ==> fields[j].0 != key {
            assert(fields[fields.len() - 1].0 != key);
        }
    }
}

/// The members of a record's JSON object: one per field name, holding the
/// value of the last field of that name; besides them `timestamp` with the
/// instant written in RFC 3339, where no field is so named and the
/// instant can be written; no other member.
pub proof fn law_json_members(record: RecordView, key: Seq<char>, k: int)
    ensures
        ({
            let m = json_members(record);
            let fs = record.fields;
            &&& is_last_named(fs, key, k) ==> m.contains_key(key) && m[key] == fs[k].1
            &&& (forall|j: int| 0 <= j < fs.len() ==> fs[j].0 != key) ==> ({
                &&& key != "timestamp"@ ==> !m.contains_key(key)
                &&& key == "timestamp"@ ==> (m.contains_key(key) <==> record.timestamp is Some && rfc3339_text(
                    record.timestamp->0,
                ) is Some)
                &&& (key == "timestamp"@ && m.contains_key(key)) ==> m[key] == rfc3339_text(record.timestamp->0)->0
            })
        }),
{
    lemma_last_value_at(record.fields, key);
    let base = match record.timestamp {
        Some(ts) => match rfc3339_text(ts) {
            Some(t) => Map::empty().insert("timestamp"@, t),
            None => Map::<Seq<char>, Seq<char>>::empty(),
        },
        None => Map::<Seq<char>, Seq<char>>::empty(),
    };
    law_last_field_wins(base, record.fields, key);
}


/// `://` begins at `i` in `u`.
pub open spec fn scheme_mark_at(u: Seq<char>, i: int) -> bool {
    0 <= i && i + 3 <= u.len() && u[i] == ':' && u[i + 1] == '/' && u[i + 2] == '/'
}

/// No character of `u` in `[from, to)` is one of `stops`.
pub open spec fn none_of(u: Seq<char>, from: int, to: int, stops: Seq<char>) -> bool {
    forall|j: int| from <= j < to ==> !stops.contains(#[trigger] u[j])
}

/// `e` ends a run from `from`: no stop before it, and it is the end of `u`
/// or a stop.
pub open spec fn run_ends_at(u: Seq<char>, from: int, e: int, stops: Seq<char>) -> bool {
    &&& from <= e <= u.len()
    &&& none_of(u, from, e, stops)
    &&& (e == u.len() || stops.contains(u[e]))
}

proof fn lemma_first_stop(s: Seq<char>, start: int, stops: Seq<char>)
    requires
        0 <= start <= s.len(),
    ensures
        run_ends_at(s, start, first_stop(s, start, stops), stops),
        forall|e: int| run_ends_at(s, start, e, stops) ==> e == first_stop(s, start, stops),
    decreases s.len() - start,
{
    if start < s.len() && !stops.contains(s[start]) {
        lemma_first_stop(s, start + 1, stops);
        assert forall|e: int| run_ends_at(s, start, e, stops) implies e == first_stop(s, start, stops) by {
            if e == start {
                assert(e < s.len());
            } else {
                assert(run_ends_at(s, start + 1, e, stops));
            }
        }
    } else {
        assert forall|e: int| run_ends_at(s, start, e, stops) implies e == first_stop(s, start, stops) by {
            if e > start {
                assert(!stops.contains(s[start]));
            }
        }
    }
}

proof fn lemma_scheme_end(s: Seq<char>, start: int)
    requires
        0 <= start,
    ensures
        forall|i: int| scheme_mark_at(s, i) && start <= i && (forall|j: int| start <= j < i ==> !scheme_mark_at(s, j))
            ==> scheme_end(s, start) == i,
        (forall|j: int| start <= j ==> !scheme_mark_at(s, j)) ==> scheme_end(s, start) == s.len(),
        scheme_end(s, start) < s.len() ==> scheme_mark_at(s, scheme_end(s, start)),
    decreases s.len() - start,
{
    if start + 3 <= s.len() && !scheme_mark_at(s, start) {
        lemma_scheme_end(s, start + 1);
    }
}

/// The domain of a URL: none without `://`; after the first `://`, the
/// text up to the first `:`, `/`, `?` or `#` (or the end).
#[verifier::spinoff_prover]
#[verifier::rlimit(40)]
pub proof fn law_url_domain(u: Seq<char>, i: int, e: int)
    ensures
        (forall|j: int| !scheme_mark_at(u, j)) ==> url_part(u, UrlPart::Domain) == Seq::<char>::empty(),
        (scheme_mark_at(u, i) && (forall|j: int| 0 <= j < i ==> !scheme_mark_at(u, j)) && run_ends_at(u, i + 3, e, seq![':', '/', '?', '#']))
            ==> url_part(u, UrlPart::Domain) == u.subrange(i + 3, e),
{
    lemma_scheme_end(u, 0);
    if scheme_mark_at(u, i) && (forall|j: int| 0 <= j < i ==> !scheme_mark_at(u, j)) {
        assert(authority_start(u) == i + 3);
        lemma_first_stop(u, i + 3, seq![':', '/', '?', '#']);
    }
}

/// The path and query of a URL. The path begins at the start where the URL
/// has no `://`, else at the first `/`, `?` or `#` after the first `://`
/// (or the end); it runs up to the first `?` or `#` after its start (or the
/// end). Where that is a `?`, the query is what follows it up to the next
/// `#` (or the end); else there is no query.
#[verifier::spinoff_prover]
#[verifier::rlimit(40)]
pub proof fn law_url_path_and_query(u: Seq<char>, h: int, q: int, e: int)
    ensures
        ({
            let marked = exists|j: int| scheme_mark_at(u, j);
            let hs = choose|j: int| scheme_mark_at(u, j) && forall|k: int| 0 <= k < j ==> !scheme_mark_at(u, k);
            let path_starts_at_h = if marked { run_ends_at(u, hs + 3, h, seq!['/', '?', '#']) } else { h == 0 };
            (path_starts_at_h && run_ends_at(u, h, q, seq!['?', '#'])) ==> ({
                &&& url_part(u, UrlPart::Path) == u.subrange(h, q)
                &&& (q < u.len() && u[q] == '?' && run_ends_at(u, q + 1, e, seq!['#'])) ==> url_part(u, UrlPart::Query) == u.subrange(q + 1, e)
                &&& !(q < u.len() && u[q] == '?') ==> url_part(u, UrlPart::Query) == Seq::<char>::empty()
            })
        }),
{
    let marked = exists|j: int| scheme_mark_at(u, j);
    let hs = choose|j: int| scheme_mark_at(u, j) && forall|k: int| 0 <= k < j ==> !scheme_mark_at(u, k);
    let path_starts_at_h = if marked { run_ends_at(u, hs + 3, h, seq!['/', '?', '#']) } else { h == 0 };
    if path_starts_at_h && run_ends_at(u, h, q, seq!['?', '#']) {
        lemma_scheme_end(u, 0);
        if marked {
            lemma_least_mark(u);
            assert(scheme_end(u, 0) == hs);
            assert(authority_start(u) == hs + 3);
            lemma_first_stop(u, hs + 3, seq!['/', '?', '#']);
            assert(authority_end(u) == h);
        } else {
            assert(!has_authority(u));
            assert(authority_end(u) == h);
        }
        lemma_first_stop(u, h, seq!['?', '#']);
        assert(first_stop(u, h, seq!['?', '#']) == q);
        if q < u.len() && u[q] == '?' && run_ends_at(u, q + 1, e, seq!['#']) {
            lemma_first_stop(u, q + 1, seq!['#']);
        }
    }
}

/// Where `u` holds `://`, there is a first place it does.
proof fn lemma_least_mark(u: Seq<char>)
    requires
        exists|j: int| scheme_mark_at(u, j),
    ensures
        exists|j: int| scheme_mark_at(u, j) && forall|k: int| 0 <= k < j ==> !scheme_mark_at(u, k),
{
    let j0 = choose|j: int| scheme_mark_at(u, j);
    lemma_least_mark_below(u, j0);
}

proof fn lemma_least_mark_below(u: Seq<char>, n: int)
    requires
        scheme_mark_at(u, n),
    ensures
        exists|j: int| scheme_mark_at(u, j) && forall|k: int| 0 <= k < j ==> !scheme_mark_at(u, k),
    decreases n,
{
    if exists|k: int| 0 <= k < n && scheme_mark_at(u, k) {
        let k = choose|k: int| 0 <= k < n && scheme_mark_at(u, k);
        lemma_least_mark_below(u, k);
    }
}


/// The texts of `ws`, one after another.
pub open spec fn concat_all(ws: Seq<Seq<char>>) -> Seq<char>
    decreases ws.len(),
{
    if ws.len() == 0 {
        seq![]
    } else {
        concat_all(ws.drop_last()) + ws.last()
    }
}

/// The characters of `s` that are not white space, in order.
pub open spec fn non_white(s: Seq<char>) -> Seq<char>
    decreases s.len(),
{
    if s.len() == 0 {
        seq![]
    } else if is_white_space(s.last()) {
        non_white(s.drop_last())
    } else {
        non_white(s.drop_last()).push(s.last())
    }
}

/// How many words begin in `s`: the places holding a character that is not
/// white space, at the start or after white space.
pub open spec fn word_starts(s: Seq<char>) -> nat
    decreases s.len(),
{
    if s.len() == 0 {
        0
    } else {
        let n = s.len() - 1;
        word_starts(s.drop_last()) + if !is_white_space(s[n]) && (n == 0 || is_white_space(s[n - 1])) {
            1nat
        } else {
            0nat
        }
    }
}

/// The words of a text (what `split_whitespace` gives): none is empty or
/// holds white space, together they hold exactly the characters of the text
/// that are not white space, in order, and there is one for each place where
/// a run of such characters begins.
pub proof fn law_words(s: Seq<char>)
    ensures
        forall|k: int| 0 <= k < words(s).len() ==> (#[trigger] words(s)[k]).len() > 0,
        forall|k: int, j: int| 0 <= k < words(s).len() && 0 <= j < words(s)[k].len() ==> !is_white_space(#[trigger] words(s)[k][j]),
        concat_all(words(s)) == non_white(s),
        words(s).len() == word_starts(s),
    decreases s.len(),
{
    if s.len() > 0 {
        let pre = s.drop_last();
        let w = words(pre);
        let c = s.last();
        law_words(pre);
        if is_white_space(c) {
        } else if s.len() >= 2 && !is_white_space(s[s.len() - 2]) {
            assert(pre.last() == s[s.len() - 2]);
            assert(non_white(pre).len() > 0);
            assert(w.len() > 0);
            let w2 = w.drop_last().push(w.last().push(c));
            assert(w2.drop_last() =~= w.drop_last());
            assert(concat_all(w) == concat_all(w.drop_last()) + w.last());
            assert(concat_all(w2) =~= concat_all(w) + seq![c]);
            assert(non_white(s) =~= non_white(pre) + seq![c]);
            assert forall|k: int, j: int| 0 <= k < w2.len() && 0 <= j < w2[k].len() implies !is_white_space(#[trigger] w2[k][j]) by {
                if k < w2.len() - 1 {
                    assert(w2[k] == w[k]);
                } else if j < w.last().len() {
                    assert(w2[k][j] == w[w.len() - 1][j]);
                }
            }
            assert forall|k: int| 0 <= k < w2.len() implies (#[trigger] w2[k]).len() > 0 by {
                if k < w2.len() - 1 {
                    assert(w2[k] == w[k]);
                }
            }
        } else {
            let w2 = w.push(seq![c]);
            assert(w2.drop_last() =~= w);
            assert(non_white(s) =~= non_white(pre) + seq![c]);
            assert forall|k: int, j: int| 0 <= k < w2.len() && 0 <= j < w2[k].len() implies !is_white_space(#[trigger] w2[k][j]) by {
                if k < w2.len() - 1 {
                    assert(w2[k] == w[k]);
                }
            }
            assert forall|k: int| 0 <= k < w2.len() implies (#[trigger] w2[k]).len() > 0 by {
                if k < w2.len() - 1 {
                    assert(w2[k] == w[k]);
                }
            }
        }
    }
}

} // verus!

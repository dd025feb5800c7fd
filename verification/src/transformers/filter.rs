//! Keeping or dropping records by comparing one field with a configured value.

use vstd::prelude::*;
use crate::config::{FilterOperator, FilterValue, FilterValueView};
use crate::pattern::{compile_regex, regex_accepts, regex_finds_match, regex_is_match, CompiledRegex};
use crate::record::{find_field, first_value, ParsedRecord, RecordView};
use crate::etl_core::transformer::Transformer;
use crate::text::{occurs_in, text_contains, text_eq};

verus! {

/// The comparison of two numbers that a filter can ask for.
#[derive(Clone, Copy, Debug, PartialEq, Eq, Structural)]
pub enum NumericRelation {
    Equal,
    Greater,
    Less,
}

/// A request to compare a field's text with an operand's text as `f64`
/// numbers. It holds when both texts read as `f64` (`str::parse::<f64>`) and
/// the first stands in `relation` to the second.
#[derive(Debug)]
pub struct NumericQuery {
    pub value: String,
    pub relation: NumericRelation,
    pub operand: String,
}

/// The mathematical form of a [`NumericQuery`].
pub struct NumericQueryView {
    pub value: Seq<char>,
    pub relation: NumericRelation,
    pub operand: Seq<char>,
}

impl View for NumericQuery {
    type V = NumericQueryView;

    open spec fn view(&self) -> NumericQueryView {
        NumericQueryView { value: self.value@, relation: self.relation, operand: self.operand@ }
    }
}

/// The configuration of a filter: the field it reads, how it compares, and with what.
pub struct FilterSpec {
    pub field: Seq<char>,
    pub operator: FilterOperator,
    pub value: FilterValueView,
}

/// A transformer that keeps a record or drops it, after one comparison of a field.
pub struct FilterTransformer {
    field: String,
    operator: FilterOperator,
    value: FilterValue,
    regex: Option<CompiledRegex>,
}

impl View for FilterTransformer {
    type V = FilterSpec;

    closed spec fn view(&self) -> FilterSpec {
        FilterSpec { field: self.field@, operator: self.operator, value: self.value@ }
    }
}

/// `eq` against the value: text equality for a single text, the numeric
/// answer for a number, never for a list.
pub open spec fn equal_holds(value: FilterValueView, v: Seq<char>, numeric: bool) -> bool {
    match value {
        FilterValueView::Single(s) => v == s,
        FilterValueView::Number(_) => numeric,
        FilterValueView::List(_) => false,
    }
}

/// `gt` and `lt` against the value: the numeric answer for a number or a
/// single text, never for a list.
pub open spec fn order_holds(value: FilterValueView, numeric: bool) -> bool {
    match value {
        FilterValueView::List(_) => false,
        _ => numeric,
    }
}

/// `in` the value: one of the list's items, or the single text itself.
pub open spec fn member_holds(value: FilterValueView, v: Seq<char>) -> bool {
    match value {
        FilterValueView::List(l) => l.contains(v),
        FilterValueView::Single(s) => s == v,
        FilterValueView::Number(_) => false,
    }
}

/// `contains` the value: the field holds the single text; for a list, some
/// item holds the field's text.
pub open spec fn contain_holds(value: FilterValueView, v: Seq<char>) -> bool {
    match value {
        FilterValueView::Single(s) => occurs_in(s, v),
        FilterValueView::List(l) => some_item_holds(l, v),
        FilterValueView::Number(_) => false,
    }
}

/// Some item of `l` holds `v`.
pub open spec fn some_item_holds(l: Seq<Seq<char>>, v: Seq<char>) -> bool {
    exists|i: int| 0 <= i < l.len() && #[trigger] occurs_in(v, l[i])
}

/// `regex` against the value: the single text, as a pattern, matches somewhere in the field.
pub open spec fn regex_holds(value: FilterValueView, v: Seq<char>) -> bool {
    match value {
        FilterValueView::Single(p) => regex_finds_match(p, v),
        _ => false,
    }
}

/// Whether a field whose text is `v` passes the comparison; `numeric` is the
/// answer to the numeric comparison, where the comparison is one.
pub open spec fn field_passes(op: FilterOperator, value: FilterValueView, v: Seq<char>, numeric: bool) -> bool {
    match op {
        FilterOperator::Eq => equal_holds(value, v, numeric),
        FilterOperator::Ne => !equal_holds(value, v, numeric),
        FilterOperator::Gt => order_holds(value, numeric),
        FilterOperator::Lt => order_holds(value, numeric),
        FilterOperator::In => member_holds(value, v),
        FilterOperator::NotIn => !member_holds(value, v),
        FilterOperator::Contains => contain_holds(value, v),
        FilterOperator::Regex => regex_holds(value, v),
    }
}

/// Whether the filter keeps the record: always when the record lacks the
/// field, else as the comparison of the field's first value decides.
pub open spec fn keeps(f: FilterSpec, record: RecordView, numeric: bool) -> bool {
    match first_value(record.fields, f.field) {
        None => true,
        Some(v) => field_passes(f.operator, f.value, v, numeric),
    }
}

/// The numeric comparison the filter needs for a field whose text is `v`:
/// `eq` and `ne` against a number, `gt` and `lt` against a number or a text.
pub open spec fn numeric_need(op: FilterOperator, value: FilterValueView, v: Seq<char>) -> Option<NumericQueryView> {
    match (op, value) {
        (FilterOperator::Eq, FilterValueView::Number(n)) => Some(
            NumericQueryView { value: v, relation: NumericRelation::Equal, operand: n },
        ),
        (FilterOperator::Ne, FilterValueView::Number(n)) => Some(
            NumericQueryView { value: v, relation: NumericRelation::Equal, operand: n },
        ),
        (FilterOperator::Gt, FilterValueView::Number(n)) => Some(
            NumericQueryView { value: v, relation: NumericRelation::Greater, operand: n },
        ),
        (FilterOperator::Gt, FilterValueView::Single(n)) => Some(
            NumericQueryView { value: v, relation: NumericRelation::Greater, operand: n },
        ),
        (FilterOperator::Lt, FilterValueView::Number(n)) => Some(
            NumericQueryView { value: v, relation: NumericRelation::Less, operand: n },
        ),
        (FilterOperator::Lt, FilterValueView::Single(n)) => Some(
            NumericQueryView { value: v, relation: NumericRelation::Less, operand: n },
        ),
        _ => None,
    }
}

/// The numeric comparison the filter needs to decide on the record, if any.
pub open spec fn numeric_query_for(f: FilterSpec, record: RecordView) -> Option<NumericQueryView> {
    match first_value(record.fields, f.field) {
        None => None,
        Some(v) => numeric_need(f.operator, f.value, v),
    }
}

/// Whether a filter with this configuration can be built: a `regex` filter's
/// pattern must compile.
pub open spec fn filter_buildable(op: FilterOperator, value: FilterValueView) -> bool {
    match (op, value) {
        (FilterOperator::Regex, FilterValueView::Single(p)) => regex_accepts(p),
        _ => true,
    }
}

/// The message a filter with an unusable pattern is refused with.
pub open spec fn invalid_rule_message() -> Seq<char> {
    "无效规则：2"@
}

impl FilterTransformer {
    /// A `regex` filter on a single text holds the pattern compiled, and no other filter holds one.
    #[verifier::type_invariant]
    spec fn well_formed(self) -> bool {
        match (self.operator, self.value) {
            (FilterOperator::Regex, FilterValue::Single(p)) => self.regex matches Some(re) && re@ == p@,
            _ => self.regex is None,
        }
    }

    /// Builds a filter; a `regex` filter whose pattern does not compile is refused.
    pub fn new(field: String, operator: FilterOperator, value: FilterValue) -> (r: Result<Self, String>)
        ensures
            r is Ok <==> filter_buildable(operator, value@),
            r matches Ok(f) ==> f@ == (FilterSpec { field: field@, operator, value: value@ }),
            r matches Err(m) ==> m@ == invalid_rule_message(),
    {
        let regex = match (&operator, &value) {
            (FilterOperator::Regex, FilterValue::Single(pattern)) => {
                match compile_regex(pattern.as_str()) {
                    Ok(re) => Some(re),
                    Err(_) => {
                        return Err(String::from_str("无效规则：2"));
                    },
                }
            },
            _ => None,
        };
        Ok(FilterTransformer { field, operator, value, regex })
    }

    /// The text of the record's first field with this filter's name.
    fn get_field_value<'a>(&self, record: &'a ParsedRecord) -> (r: Option<&'a str>)
        ensures
            r matches Some(v) ==> first_value(record@.fields, self@.field) == Some(v@),
            r is None ==> first_value(record@.fields, self@.field) is None,
    {
        find_field(&record.fields, self.field.as_str())
    }

    /// Whether the record is kept. `numeric` answers the numeric comparison
    /// that [`Self::numeric_query`] asks for; it is not read when none is asked.
    pub fn should_keep(&self, record: &ParsedRecord, numeric: bool) -> (r: bool)
        ensures
            r == keeps(self@, record@, numeric),
    {
        let field_value = match self.get_field_value(record) {
            Some(v) => v,
            None => return true,
        };
        match self.operator {
            FilterOperator::Eq => self.compare_equal(field_value, numeric),
            FilterOperator::Ne => !self.compare_equal(field_value, numeric),
            FilterOperator::Gt => self.compare_greater(numeric),
            FilterOperator::Lt => self.compare_less(numeric),
            FilterOperator::In => self.compare_in(field_value),
            FilterOperator::NotIn => !self.compare_in(field_value),
            FilterOperator::Contains => self.compare_contain(field_value),
            FilterOperator::Regex => self.compare_regex(field_value),
        }
    }

    /// The numeric comparison this filter needs to decide on the record, if any.
    pub fn numeric_query(&self, record: &ParsedRecord) -> (r: Option<NumericQuery>)
        ensures
            r matches Some(q) ==> numeric_query_for(self@, record@) == Some(q@),
            r is None ==> numeric_query_for(self@, record@) is None,
    {
        let field_value = match self.get_field_value(record) {
            Some(v) => v,
            None => return None,
        };
        let relation = match (self.operator, &self.value) {
            (FilterOperator::Eq, FilterValue::Number(_)) => NumericRelation::Equal,
            (FilterOperator::Ne, FilterValue::Number(_)) => NumericRelation::Equal,
            (FilterOperator::Gt, FilterValue::Number(_)) => NumericRelation::Greater,
            (FilterOperator::Gt, FilterValue::Single(_)) => NumericRelation::Greater,
            (FilterOperator::Lt, FilterValue::Number(_)) => NumericRelation::Less,
            (FilterOperator::Lt, FilterValue::Single(_)) => NumericRelation::Less,
            _ => return None,
        };
        let operand = match &self.value {
            FilterValue::Number(n) => n.clone(),
            FilterValue::Single(s) => s.clone(),
            FilterValue::List(_) => return None,
        };
        Some(NumericQuery { value: field_value.to_owned(), relation, operand })
    }

    /// `eq`: text equality with a single text; the numeric answer for a number.
    fn compare_equal(&self, field_value: &str, numeric: bool) -> (r: bool)
        ensures
            r == equal_holds(self@.value, field_value@, numeric),
    {
        match &self.value {
            FilterValue::Single(expected) => text_eq(field_value, expected.as_str()),
            FilterValue::Number(_) => numeric,
            FilterValue::List(_) => false,
        }
    }

    /// `gt`: the numeric answer, unless the value is a list.
    fn compare_greater(&self, numeric: bool) -> (r: bool)
        ensures
            r == order_holds(self@.value, numeric),
    {
        match &self.value {
            FilterValue::Number(_) => numeric,
            FilterValue::Single(_) => numeric,
            _ => false,
        }
    }

    /// `lt`: the numeric answer, unless the value is a list.
    fn compare_less(&self, numeric: bool) -> (r: bool)
        ensures
            r == order_holds(self@.value, numeric),
    {
        match &self.value {
            FilterValue::Number(_) => numeric,
            FilterValue::Single(_) => numeric,
            _ => false,
        }
    }

    /// `in`: one of the list's items, or the single text.
    fn compare_in(&self, field_value: &str) -> (r: bool)
        ensures
            r == member_holds(self@.value, field_value@),
    {
        match &self.value {
            FilterValue::List(list) => {
                let ghost l = list.deep_view();
                let mut i: usize = 0;
                while i < list.len()
                    invariant
                        l == list.deep_view(),
                        self@.value == FilterValueView::List(l),
                        l.len() == list.len(),
                        i <= list.len(),
                        forall|j: int| 0 <= j < i ==> l[j] != field_value@,
                    decreases list.len() - i,
                {
                    assert(l[i as int] == list[i as int]@);
                    if text_eq(list[i].as_str(), field_value) {
                        assert(l.contains(field_value@));
                        assert(self@.value == FilterValueView::List(l));
                        return true;
                    }
                    i = i + 1;
                }
                false
            },
            FilterValue::Single(s) => text_eq(s.as_str(), field_value),
            _ => false,
        }
    }

    /// `contains`: the field holds the single text; or some list item holds the field.
    fn compare_contain(&self, field_value: &str) -> (r: bool)
        ensures
            r == contain_holds(self@.value, field_value@),
    {
        match &self.value {
            FilterValue::Single(substr) => text_contains(field_value, substr.as_str()),
            FilterValue::List(list) => {
                let ghost l = list.deep_view();
                let mut i: usize = 0;
                while i < list.len()
                    invariant
                        l == list.deep_view(),
                        self@.value == FilterValueView::List(l),
                        l.len() == list.len(),
                        i <= list.len(),
                        forall|j: int| 0 <= j < i ==> !occurs_in(field_value@, #[trigger] l[j]),
                    decreases list.len() - i,
                {
                    assert(l[i as int] == list[i as int]@);
                    if text_contains(list[i].as_str(), field_value) {
                        assert(occurs_in(field_value@, l[i as int]));
                        assert(exists|k: int| 0 <= k < l.len() && #[trigger] occurs_in(field_value@, l[k]));
                        return true;
                    }
                    i = i + 1;
                }
                false
            },
            _ => false,
        }
    }

    /// `regex`: the compiled pattern matches somewhere in the field.
    fn compare_regex(&self, field_value: &str) -> (r: bool)
        ensures
            self@.operator == FilterOperator::Regex ==> r == regex_holds(self@.value, field_value@),
    {
        proof {
            use_type_invariant(self);
        }
        match &self.regex {
            Some(re) => regex_is_match(re, field_value),
            None => false,
        }
    }
}

impl Transformer for FilterTransformer {
    open spec fn outcome(&self, record: RecordView, numeric: bool) -> Result<Option<RecordView>, Seq<char>> {
        if keeps(self@, record, numeric) {
            Ok(Some(record))
        } else {
            Ok(None)
        }
    }

    open spec fn query(&self, record: RecordView) -> Option<NumericQueryView> {
        numeric_query_for(self@, record)
    }

    /// Keeps the record, unchanged, or drops it. `numeric` is as for [`FilterTransformer::should_keep`].
    fn transform(&self, record: ParsedRecord, numeric: bool) -> (r: Result<Option<ParsedRecord>, String>) {
        if self.should_keep(&record, numeric) {
            Ok(Some(record))
        } else {
            Ok(None)
        }
    }

    fn numeric_query(&self, record: &ParsedRecord) -> (r: Option<NumericQuery>) {
        FilterTransformer::numeric_query(self, record)
    }
}

} // verus!

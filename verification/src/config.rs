//! The pipeline's configuration, as read from a TOML file.

use vstd::prelude::*;

verus! {

/// Global settings.
#[derive(Debug)]
pub struct GlobalConfig {
    pub workers: usize,
    pub batch_size: usize,
}

/// The number of workers when the configuration names none.
pub fn default_workers() -> (r: usize)
    ensures
        r == 4,
{
    4
}

/// The batch size when the configuration names none.
pub fn default_batch_size() -> (r: usize)
    ensures
        r == 1000,
{
    1000
}

/// The output format when the configuration names none.
pub fn default_format() -> (r: String)
    ensures
        r@ == "json"@,
{
    String::from_str("json")
}

/// Where the lines come from.
#[derive(Debug)]
pub enum InputConfig {
    File { path: String, checkpoink_file: Option<String> },
}

/// Which parser reads the lines.
#[derive(Debug)]
pub enum ParserConfig {
    Nginx { custom_regex: Option<String> },
    Json { field_map: Option<Vec<(String, String)>> },
    Regex { pattern: String, fields: Vec<String> },
}

/// One stage of the transformer chain.
#[derive(Debug)]
pub enum TransformerConfig {
    Filter { field: String, operator: FilterOperator, value: FilterValue },
    Enrich { field: String, source_field: String, enrich_type: EnrichType },
}

/// How a filter compares a field with its value.
#[derive(Clone, Copy, Debug, PartialEq, Eq, Structural)]
pub enum FilterOperator {
    Eq,
    Ne,
    Gt,
    Lt,
    In,
    NotIn,
    Contains,
    Regex,
}

/// The value a filter compares with. A number is held as the decimal text
/// that prints the configured `f64` exactly (Rust's shortest round-trip form),
/// so that reading it back gives the same number.
#[derive(Debug)]
pub enum FilterValue {
    Single(String),
    List(Vec<String>),
    Number(String),
}

/// The mathematical form of a [`FilterValue`].
pub enum FilterValueView {
    Single(Seq<char>),
    List(Seq<Seq<char>>),
    Number(Seq<char>),
}

impl View for FilterValue {
    type V = FilterValueView;

    open spec fn view(&self) -> FilterValueView {
        match self {
            FilterValue::Single(s) => FilterValueView::Single(s@),
            FilterValue::List(l) => FilterValueView::List(l.deep_view()),
            FilterValue::Number(n) => FilterValueView::Number(n@),
        }
    }
}

/// A copy of a list of texts.
pub fn copy_texts(v: &Vec<String>) -> (r: Vec<String>)
    ensures
        r.deep_view() == v.deep_view(),
{
    let mut r: Vec<String> = Vec::new();
    let mut i: usize = 0;
    while i < v.len()
        invariant
            i <= v.len(),
            r.deep_view() == v.deep_view().take(i as int),
        decreases v.len() - i,
    {
        let ghost before = r.deep_view();
        r.push(v[i].clone());
        assert(r.deep_view() =~= before.push(v[i as int]@));
        assert(v.deep_view().take(i + 1) =~= v.deep_view().take(i as int).push(v[i as int]@));
        i = i + 1;
    }
    assert(v.deep_view().take(v.len() as int) =~= v.deep_view());
    r
}

/// A copy of a list of text pairs.
pub fn copy_pairs(v: &Vec<(String, String)>) -> (r: Vec<(String, String)>)
    ensures
        r.deep_view() == v.deep_view(),
{
    let mut r: Vec<(String, String)> = Vec::new();
    let mut i: usize = 0;
    while i < v.len()
        invariant
            i <= v.len(),
            r.deep_view() == v.deep_view().take(i as int),
        decreases v.len() - i,
    {
        let ghost before = r.deep_view();
        r.push((v[i].0.clone(), v[i].1.clone()));
        assert(r.deep_view() =~= before.push(v@[i as int].deep_view()));
        assert(v.deep_view().take(i + 1) =~= v.deep_view().take(i as int).push(v@[i as int].deep_view()));
        i = i + 1;
    }
    assert(v.deep_view().take(v.len() as int) =~= v.deep_view());
    r
}

impl FilterValue {
    /// A copy of this value.
    pub fn duplicate(&self) -> (r: FilterValue)
        ensures
            r@ == self@,
    {
        match self {
            FilterValue::Single(s) => FilterValue::Single(s.clone()),
            FilterValue::List(l) => FilterValue::List(copy_texts(l)),
            FilterValue::Number(n) => FilterValue::Number(n.clone()),
        }
    }
}

/// How an enricher derives its field.
#[derive(Debug)]
pub enum EnrichType {
    TimeFormat { format: String },
    UrlParse { part: UrlPart },
    IpGeo,
}

impl EnrichType {
    /// A copy of this enrichment kind.
    pub fn duplicate(&self) -> (r: EnrichType)
        ensures
            r == *self,
    {
        match self {
            EnrichType::TimeFormat { format } => EnrichType::TimeFormat { format: format.clone() },
            EnrichType::UrlParse { part } => EnrichType::UrlParse { part: *part },
            EnrichType::IpGeo => EnrichType::IpGeo,
        }
    }
}

/// The part of a URL that an enricher extracts.
#[derive(Clone, Copy, Debug, PartialEq, Eq, Structural)]
pub enum UrlPart {
    Domain,
    Path,
    Query,
}

/// Where the records go.
#[derive(Debug)]
pub enum SinkConfig {
    /// `delimiter` and `fields` serve the `delimited` format.
    File {
        path: String,
        format: String,
        rotate_size: Option<String>,
        rotate_time: Option<String>,
        delimiter: Option<char>,
        fields: Option<Vec<String>>,
    },
    Kafka { brokers: Vec<String>, topic: String, batch_size: usize },
}

/// A whole configuration.
#[derive(Debug)]
pub struct Config {
    pub global: GlobalConfig,
    pub input: InputConfig,
    pub parser: ParserConfig,
    pub transformers: Vec<TransformerConfig>,
    pub sink: SinkConfig,
}

} // verus!

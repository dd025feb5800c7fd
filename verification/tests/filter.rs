use rust_log_etl::config::{FilterOperator, FilterValue};
use rust_log_etl::record::ParsedRecord;
use rust_log_etl::transformers::filter::{FilterTransformer, NumericRelation};
use rust_log_etl::Transformer;

fn record(fields: &[(&str, &str)]) -> ParsedRecord {
    ParsedRecord { timestamp: None, fields: fields.iter().map(|(k, v)| (k.to_string(), v.to_string())).collect() }
}

fn single(s: &str) -> FilterValue {
    FilterValue::Single(s.to_string())
}

fn list(items: &[&str]) -> FilterValue {
    FilterValue::List(items.iter().map(|s| s.to_string()).collect())
}

fn number(n: f64) -> FilterValue {
    FilterValue::Number(n.to_string())
}

fn filter(field: &str, op: FilterOperator, value: FilterValue) -> FilterTransformer {
    FilterTransformer::new(field.to_string(), op, value).unwrap()
}

/// Answers a numeric query the way the program does.
fn answer(f: &FilterTransformer, r: &ParsedRecord) -> bool {
    match f.numeric_query(r) {
        None => false,
        Some(q) => match (q.value.parse::<f64>(), q.operand.parse::<f64>()) {
            (Ok(a), Ok(b)) => match q.relation {
                NumericRelation::Equal => a == b,
                NumericRelation::Greater => a > b,
                NumericRelation::Less => a < b,
            },
            _ => false,
        },
    }
}

fn keeps(f: &FilterTransformer, r: &ParsedRecord) -> bool {
    f.should_keep(r, answer(f, r))
}

#[test]
fn missing_field_is_always_kept() {
    let r = record(&[("status", "200")]);
    for op in [
        FilterOperator::Eq,
        FilterOperator::Ne,
        FilterOperator::Gt,
        FilterOperator::Lt,
        FilterOperator::In,
        FilterOperator::NotIn,
        FilterOperator::Contains,
    ] {
        assert!(keeps(&filter("missing", op, single("x")), &r));
    }
    assert!(keeps(&filter("missing", FilterOperator::Regex, single("^x$")), &r));
}

#[test]
fn eq_and_ne_on_text() {
    let r = record(&[("status", "200")]);
    assert!(keeps(&filter("status", FilterOperator::Eq, single("200")), &r));
    assert!(!keeps(&filter("status", FilterOperator::Eq, single("404")), &r));
    assert!(!keeps(&filter("status", FilterOperator::Ne, single("200")), &r));
    assert!(keeps(&filter("status", FilterOperator::Ne, single("404")), &r));
    assert!(!keeps(&filter("status", FilterOperator::Eq, list(&["200"])), &r));
}

#[test]
fn eq_on_number_compares_as_float() {
    let r = record(&[("status", "200.0")]);
    let f = filter("status", FilterOperator::Eq, number(200.0));
    let q = f.numeric_query(&r).unwrap();
    assert_eq!(q.relation, NumericRelation::Equal);
    assert_eq!(q.value, "200.0");
    assert!(keeps(&f, &r));
    assert!(!keeps(&filter("status", FilterOperator::Ne, number(200.0)), &r));
    let r = record(&[("status", "abc")]);
    assert!(!keeps(&filter("status", FilterOperator::Eq, number(200.0)), &r));
    assert!(keeps(&filter("status", FilterOperator::Ne, number(200.0)), &r));
}

#[test]
fn gt_and_lt() {
    let r = record(&[("bytes", "1500")]);
    assert!(keeps(&filter("bytes", FilterOperator::Gt, number(1000.0)), &r));
    assert!(!keeps(&filter("bytes", FilterOperator::Lt, number(1000.0)), &r));
    assert!(keeps(&filter("bytes", FilterOperator::Gt, single("999.5")), &r));
    assert!(!keeps(&filter("bytes", FilterOperator::Gt, single("many")), &r));
    assert!(!keeps(&filter("bytes", FilterOperator::Gt, list(&["1"])), &r));
    let r = record(&[("bytes", "-")]);
    assert!(!keeps(&filter("bytes", FilterOperator::Gt, number(1.0)), &r));
    assert!(!keeps(&filter("bytes", FilterOperator::Lt, number(1.0)), &r));
}

#[test]
fn in_and_not_in() {
    let r = record(&[("status", "404")]);
    assert!(keeps(&filter("status", FilterOperator::In, list(&["200", "404"])), &r));
    assert!(!keeps(&filter("status", FilterOperator::NotIn, list(&["404", "500"])), &r));
    assert!(keeps(&filter("status", FilterOperator::NotIn, list(&["500"])), &r));
    assert!(keeps(&filter("status", FilterOperator::In, single("404")), &r));
    assert!(!keeps(&filter("status", FilterOperator::In, number(404.0)), &r));
    assert!(keeps(&filter("status", FilterOperator::NotIn, number(404.0)), &r));
}

#[test]
fn contains_single_and_list() {
    let r = record(&[("message", "disk error on sda")]);
    assert!(keeps(&filter("message", FilterOperator::Contains, single("error")), &r));
    assert!(!keeps(&filter("message", FilterOperator::Contains, single("warning")), &r));
    assert!(keeps(&filter("message", FilterOperator::Contains, single("")), &r));
    let r = record(&[("host", "web")]);
    assert!(keeps(&filter("host", FilterOperator::Contains, list(&["db1", "web-01"])), &r));
    assert!(!keeps(&filter("host", FilterOperator::Contains, list(&["db1", "we"])), &r));
    assert!(!keeps(&filter("host", FilterOperator::Contains, number(1.0)), &r));
}

#[test]
fn regex_matches_anywhere() {
    let r = record(&[("url", "/api/v1/users")]);
    assert!(keeps(&filter("url", FilterOperator::Regex, single("^/api/.*$")), &r));
    assert!(keeps(&filter("url", FilterOperator::Regex, single("v[0-9]")), &r));
    assert!(!keeps(&filter("url", FilterOperator::Regex, single("^/static")), &r));
    assert!(!keeps(&filter("url", FilterOperator::Regex, list(&["^/api"])), &r));
}

#[test]
fn invalid_regex_is_refused() {
    let err = FilterTransformer::new("url".to_string(), FilterOperator::Regex, single("(")).err().unwrap();
    assert_eq!(err, "无效规则：2");
    assert!(FilterTransformer::new("url".to_string(), FilterOperator::Eq, single("(")).is_ok());
}

#[test]
fn first_field_of_a_name_is_compared() {
    let r = record(&[("k", "a"), ("k", "b")]);
    assert!(keeps(&filter("k", FilterOperator::Eq, single("a")), &r));
    assert!(!keeps(&filter("k", FilterOperator::Eq, single("b")), &r));
}

#[test]
fn transform_passes_or_drops() {
    let f = filter("status", FilterOperator::Eq, single("200"));
    let kept = f.transform(record(&[("status", "200")]), false).unwrap().unwrap();
    assert_eq!(kept.fields, vec![("status".to_string(), "200".to_string())]);
    assert!(f.transform(record(&[("status", "500")]), false).unwrap().is_none());
}

#[test]
fn numeric_query_only_where_needed() {
    let r = record(&[("status", "200")]);
    assert!(filter("status", FilterOperator::Eq, single("200")).numeric_query(&r).is_none());
    assert!(filter("status", FilterOperator::In, number(1.0)).numeric_query(&r).is_none());
    assert!(filter("other", FilterOperator::Gt, number(1.0)).numeric_query(&r).is_none());
    let q = filter("status", FilterOperator::Lt, single("300")).numeric_query(&r).unwrap();
    assert_eq!(q.relation, NumericRelation::Less);
    assert_eq!(q.operand, "300");
}

#[test]
fn answer_is_read_only_where_asked() {
    let r = record(&[("status", "200")]);
    let f = filter("status", FilterOperator::Eq, single("200"));
    assert!(f.numeric_query(&r).is_none());
    assert_eq!(f.should_keep(&r, true), f.should_keep(&r, false));
    let g = filter("status", FilterOperator::Gt, number(100.0));
    assert!(g.numeric_query(&r).is_some());
    assert!(g.should_keep(&r, true));
    assert!(!g.should_keep(&r, false));
}

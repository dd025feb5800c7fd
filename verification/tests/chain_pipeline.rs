use rust_log_etl::builder::{ParserChoice, PipelineBuilder};
use rust_log_etl::config::{EnrichType, FilterOperator, FilterValue, ParserConfig, TransformerConfig, UrlPart};
use rust_log_etl::error::{EtlError, LineResult};
use rust_log_etl::etl_core::parser::AnyParser;
use rust_log_etl::etl_core::transformer::{AnyTransformer, TransformerChain};
use rust_log_etl::pipeline::{dlq_entry, LineAction, ProcessStats};
use rust_log_etl::record::{ParsedRecord, Timestamp};
use rust_log_etl::transformers::enrich::{url_part_of, EnrichTransformer};
use rust_log_etl::transformers::filter::FilterTransformer;
use rust_log_etl::{JsonParser, Parser, Pipeline, Transformer};

fn record(fields: &[(&str, &str)]) -> ParsedRecord {
    ParsedRecord { timestamp: None, fields: fields.iter().map(|(k, v)| (k.to_string(), v.to_string())).collect() }
}

fn eq_filter(field: &str, value: &str) -> AnyTransformer {
    AnyTransformer::Filter(
        FilterTransformer::new(field.to_string(), FilterOperator::Eq, FilterValue::Single(value.to_string())).unwrap(),
    )
}

#[test]
fn empty_chain_passes_everything() {
    let chain = TransformerChain::new(vec![]);
    let out = chain.transform(record(&[("a", "1")]), &vec![]).unwrap().unwrap();
    assert_eq!(out.fields, vec![("a".to_string(), "1".to_string())]);
}

#[test]
fn chain_drops_when_any_stage_drops() {
    let chain = TransformerChain::new(vec![eq_filter("a", "1"), eq_filter("b", "2")]);
    assert!(chain.transform(record(&[("a", "1"), ("b", "2")]), &vec![]).unwrap().is_some());
    assert!(chain.transform(record(&[("a", "1"), ("b", "3")]), &vec![]).unwrap().is_none());
    assert!(chain.transform(record(&[("a", "0"), ("b", "2")]), &vec![]).unwrap().is_none());
}

#[test]
fn chain_uses_answers_per_stage() {
    let gt = AnyTransformer::Filter(
        FilterTransformer::new("n".to_string(), FilterOperator::Gt, FilterValue::Number("5".to_string())).unwrap(),
    );
    let chain = TransformerChain::new(vec![eq_filter("a", "1"), gt]);
    let r = record(&[("a", "1"), ("n", "7")]);
    let queries = chain.numeric_queries(&r);
    assert_eq!(queries.len(), 2);
    assert!(queries[0].is_none());
    assert_eq!(queries[1].as_ref().unwrap().operand, "5");
    assert!(chain.transform(record(&[("a", "1"), ("n", "7")]), &vec![false, true]).unwrap().is_some());
    assert!(chain.transform(record(&[("a", "1"), ("n", "7")]), &vec![false, false]).unwrap().is_none());
    assert!(chain.transform(record(&[("a", "1"), ("n", "7")]), &vec![]).unwrap().is_none());
}

fn hour_enricher() -> EnrichTransformer {
    EnrichTransformer::new("hour".to_string(), "timestamp".to_string(), EnrichType::TimeFormat {
        format: "%H".to_string(),
    })
    .unwrap()
}

#[test]
fn time_format_without_instant_leaves_record() {
    let out = hour_enricher().transform(record(&[("x", "y")]), false).unwrap().unwrap();
    assert_eq!(out.fields, vec![("x".to_string(), "y".to_string())]);
    assert_eq!(out.timestamp, None);
}

#[test]
fn time_format_adds_the_hour() {
    // 2000-10-10T20:55:36Z
    let r = ParsedRecord { timestamp: Some(Timestamp { secs: 971211336, nanos: 0 }), fields: vec![] };
    let out = hour_enricher().transform(r, false).unwrap().unwrap();
    assert_eq!(out.timestamp, Some(Timestamp { secs: 971211336, nanos: 0 }));
    assert_eq!(out.fields, vec![("hour".to_string(), "20".to_string())]);
}

#[test]
fn time_format_reads_a_source_field() {
    let e = EnrichTransformer::new("day".to_string(), "ts".to_string(), EnrichType::TimeFormat {
        format: "%Y-%m-%d".to_string(),
    })
    .unwrap();
    let out = e.enrich(record(&[("ts", "2024-03-05T23:30:00-02:00")]));
    assert_eq!(out.fields[1], ("day".to_string(), "2024-03-06".to_string()));
    let out = e.enrich(record(&[("ts", "not a time")]));
    assert_eq!(out.fields.len(), 1);
}

fn url_enricher(part: UrlPart) -> EnrichTransformer {
    EnrichTransformer::new("part".to_string(), "url".to_string(), EnrichType::UrlParse { part }).unwrap()
}

#[test]
fn url_parse_adds_the_part() {
    let full = record(&[("url", "https://example.com:8080/a/b?x=1&y=2#frag")]);
    let part = |p: UrlPart| url_enricher(p).enrich(full.duplicate()).fields[1].1.clone();
    assert_eq!(part(UrlPart::Domain), "example.com");
    assert_eq!(part(UrlPart::Path), "/a/b");
    assert_eq!(part(UrlPart::Query), "x=1&y=2");
    let rel = record(&[("url", "/api/v1?id=7")]);
    let part = |p: UrlPart| url_enricher(p).enrich(rel.duplicate()).fields[1].1.clone();
    assert_eq!(part(UrlPart::Domain), "");
    assert_eq!(part(UrlPart::Path), "/api/v1");
    assert_eq!(part(UrlPart::Query), "id=7");
    assert_eq!(url_part_of("http://h/p", UrlPart::Query), "");
    assert_eq!(url_part_of("http://h", UrlPart::Path), "");
}

#[test]
fn url_parse_without_source_leaves_record() {
    let out = url_enricher(UrlPart::Path).enrich(record(&[("x", "y")]));
    assert_eq!(out.fields, vec![("x".to_string(), "y".to_string())]);
}

#[test]
fn ip_geo_leaves_record() {
    let e = EnrichTransformer::new("country".to_string(), "ip".to_string(), EnrichType::IpGeo).unwrap();
    let out = e.enrich(record(&[("ip", "1.2.3.4")]));
    assert_eq!(out.fields, vec![("ip".to_string(), "1.2.3.4".to_string())]);
}

#[test]
fn later_stages_see_enriched_fields() {
    let e = AnyTransformer::Enrich(url_enricher(UrlPart::Path));
    let chain = TransformerChain::new(vec![e, eq_filter("part", "/ok")]);
    let kept = chain.transform(record(&[("url", "http://h/ok?q")]), &vec![]).unwrap().unwrap();
    assert_eq!(kept.fields[1], ("part".to_string(), "/ok".to_string()));
    assert!(chain.transform(record(&[("url", "http://h/no")]), &vec![]).unwrap().is_none());
    let gt = AnyTransformer::Filter(
        FilterTransformer::new("part".to_string(), FilterOperator::Gt, FilterValue::Number("5".to_string())).unwrap(),
    );
    let chain = TransformerChain::new(vec![AnyTransformer::Enrich(url_enricher(UrlPart::Query)), gt]);
    let queries = chain.numeric_queries(&record(&[("url", "/x?9")]));
    assert!(queries[0].is_none());
    assert_eq!(queries[1].as_ref().unwrap().value, "9");
}

#[test]
fn concatenated_chain_runs_halves_in_turn() {
    let a = || vec![AnyTransformer::Enrich(url_enricher(UrlPart::Path)), eq_filter("k", "1")];
    let b = || vec![eq_filter("part", "/p")];
    let whole = TransformerChain::new(a().into_iter().chain(b()).collect());
    for r in [record(&[("k", "1"), ("url", "/p")]), record(&[("k", "2"), ("url", "/p")]), record(&[("k", "1"), ("url", "/q")])] {
        let first = TransformerChain::new(a()).transform(r.duplicate(), &vec![]).unwrap();
        let expected = match first {
            Some(x) => TransformerChain::new(b()).transform(x, &vec![]).unwrap(),
            None => None,
        };
        let got = whole.transform(r, &vec![]).unwrap();
        assert_eq!(got.map(|x| x.fields), expected.map(|x| x.fields));
    }
}

#[test]
fn process_line_outcomes() {
    let pipeline = Pipeline::new(AnyParser::Json(JsonParser::new()), vec![eq_filter("level", "error")]);
    let line = r#"{"level": "error"}"#.to_string();
    let parsed = pipeline.parse_line(&line);
    match pipeline.process_line(line.clone(), parsed, &vec![false]) {
        LineResult::Successs(r) => assert_eq!(r.fields, vec![("level".to_string(), "error".to_string())]),
        other => panic!("unexpected {:?}", other),
    }
    let line = r#"{"level": "info"}"#.to_string();
    let parsed = pipeline.parse_line(&line);
    assert!(matches!(pipeline.process_line(line, parsed, &vec![false]), LineResult::Filtered));
    let line = "not json".to_string();
    let parsed = pipeline.parse_line(&line);
    match pipeline.process_line(line, parsed, &vec![]) {
        LineResult::Failed { line, error: EtlError::ParseError { line: l2, reason } } => {
            assert_eq!(line, "not json");
            assert_eq!(l2, "not json");
            assert!(!reason.is_empty());
        },
        other => panic!("unexpected {:?}", other),
    }
}

#[test]
fn dlq_entry_format() {
    let e = EtlError::ParseError { line: "x".to_string(), reason: "bad".to_string() };
    assert_eq!(dlq_entry("x", &e), "x|解析错误： line=x， 原因： bad\n");
    assert_eq!(dlq_entry("y", &EtlError::Sink("disk full".to_string())), "y|Sink错误： disk full\n");
}

#[test]
fn error_messages() {
    assert_eq!(EtlError::Config("c".to_string()).message(), "配置错误： c");
    assert_eq!(EtlError::Io("i".to_string()).message(), "IO错误： i");
    assert_eq!(EtlError::Transform("t".to_string()).message(), "转换错误： t");
    assert_eq!(EtlError::Unknown("u".to_string()).message(), "未知错误： u");
}

#[test]
fn stats_account_every_line_once() {
    let mut stats = ProcessStats::new();
    match stats.on_line(LineResult::Successs(record(&[("a", "1")]))) {
        LineAction::Write(r) => assert_eq!(r.fields.len(), 1),
        other => panic!("unexpected {:?}", other),
    }
    assert_eq!(stats.on_write("l1", Ok(())), None);
    assert!(matches!(stats.on_line(LineResult::Filtered), LineAction::Skip));
    match stats.on_line(LineResult::Failed {
        line: "bad".to_string(),
        error: EtlError::ParseError { line: "bad".to_string(), reason: "r".to_string() },
    }) {
        LineAction::DeadLetter(d) => assert_eq!(d, "bad|解析错误： line=bad， 原因： r\n"),
        other => panic!("unexpected {:?}", other),
    }
    assert!(matches!(stats.on_line(LineResult::Successs(record(&[]))), LineAction::Write(_)));
    assert_eq!(stats.on_write("l4", Err("full".to_string())), Some("l4|Sink错误： full\n".to_string()));
    assert_eq!(stats.total_lilnes, 4);
    assert_eq!(stats.parsed_ok, 2);
    assert_eq!(stats.written, 1);
    assert_eq!(stats.filtered, 1);
    assert_eq!(stats.parsed_failed, 2);
    assert_eq!(stats.total_lilnes, stats.written + stats.filtered + stats.parsed_failed);
}

#[test]
fn build_transformers_in_order() {
    let configs = vec![
        TransformerConfig::Filter {
            field: "status".to_string(),
            operator: FilterOperator::NotIn,
            value: FilterValue::List(vec!["404".to_string(), "500".to_string()]),
        },
        TransformerConfig::Enrich {
            field: "hour".to_string(),
            source_field: "timestamp".to_string(),
            enrich_type: EnrichType::IpGeo,
        },
    ];
    let ts = PipelineBuilder::build_transformers(&configs).unwrap();
    assert_eq!(ts.len(), 2);
    assert!(matches!(ts[0], AnyTransformer::Filter(_)));
    assert!(matches!(ts[1], AnyTransformer::Enrich(_)));
    let bad = vec![TransformerConfig::Filter {
        field: "url".to_string(),
        operator: FilterOperator::Regex,
        value: FilterValue::Single("[".to_string()),
    }];
    assert_eq!(PipelineBuilder::build_transformers(&bad).err().unwrap(), "无效规则：2");
}

#[test]
fn runtime_parser_choice() {
    assert!(matches!(PipelineBuilder::runtime_parser("nginx"), Ok(ParserChoice::Nginx { custom_regex: None })));
    match PipelineBuilder::runtime_parser("json") {
        Ok(ParserChoice::Json { field_map }) => assert!(field_map.is_empty()),
        other => panic!("unexpected {:?}", other),
    }
    assert_eq!(PipelineBuilder::runtime_parser("xml").err(), Some("不支持的解析器类型: xml".to_string()));
}

#[test]
fn answers_ignored_where_no_stage_asks() {
    let chain = TransformerChain::new(vec![eq_filter("a", "1"), eq_filter("b", "2")]);
    let r1 = chain.transform(record(&[("a", "1"), ("b", "2")]), &vec![true, true]).unwrap();
    let r2 = chain.transform(record(&[("a", "1"), ("b", "2")]), &vec![false, false]).unwrap();
    assert_eq!(r1.map(|r| r.fields), r2.map(|r| r.fields));
}

fn parser_from(config: ParserConfig) -> Result<AnyParser, String> {
    PipelineBuilder::build_parser(PipelineBuilder::build_parse(&config))
}

#[test]
fn json_field_map_renames_keys() {
    let p = parser_from(ParserConfig::Json {
        field_map: Some(vec![("ts".to_string(), "timestamp".to_string()), ("lvl".to_string(), "level".to_string())]),
    })
    .unwrap();
    let r = p.parse(r#"{"ts":"2024-01-01T00:00:00Z","lvl":"warn","msg":"m"}"#).unwrap();
    assert_eq!(
        r.fields,
        vec![
            ("level".to_string(), "warn".to_string()),
            ("msg".to_string(), "m".to_string()),
            ("timestamp".to_string(), "2024-01-01T00:00:00Z".to_string()),
        ]
    );
    assert_eq!(r.timestamp, Some(Timestamp { secs: 1704067200, nanos: 0 }));
    let plain = parser_from(ParserConfig::Json { field_map: None }).unwrap();
    let r = plain.parse(r#"{"ts":"2024-01-01T00:00:00Z"}"#).unwrap();
    assert_eq!(r.fields, vec![("ts".to_string(), "2024-01-01T00:00:00Z".to_string())]);
    assert_eq!(r.timestamp, None);
}

#[test]
fn regex_parser_reads_configured_fields() {
    let p = parser_from(ParserConfig::Regex {
        pattern: r"^(?P<level>\w+) (?P<msg>.*)$".to_string(),
        fields: vec!["level".to_string(), "msg".to_string(), "absent".to_string()],
    })
    .unwrap();
    let r = p.parse("INFO hello world").unwrap();
    assert_eq!(
        r.fields,
        vec![
            ("level".to_string(), "INFO".to_string()),
            ("msg".to_string(), "hello world".to_string()),
            ("absent".to_string(), "".to_string()),
        ]
    );
    assert_eq!(r.timestamp, None);
    assert_eq!(p.parse("").err(), Some("日志解析失败行：".to_string()));
}

#[test]
fn invalid_patterns_are_refused() {
    let e = parser_from(ParserConfig::Regex { pattern: "(".to_string(), fields: vec![] }).err();
    assert_eq!(e, Some("无效的正则表达式: (".to_string()));
    let e = parser_from(ParserConfig::Nginx { custom_regex: Some("[".to_string()) }).err();
    assert_eq!(e, Some("无效的正则表达式: [".to_string()));
}

#[test]
fn nginx_custom_regex_is_used() {
    let p = parser_from(ParserConfig::Nginx { custom_regex: Some(r"^(?P<ip>\S+) (?P<status>\d+) (?P<bytes>\S+)$".to_string()) })
        .unwrap();
    let r = p.parse("10.0.0.1 404 -").unwrap();
    assert_eq!(r.fields[0], ("ip".to_string(), "10.0.0.1".to_string()));
    assert_eq!(r.fields[5], ("status".to_string(), "404".to_string()));
    assert_eq!(r.fields[6], ("bytes".to_string(), "0".to_string()));
    assert_eq!(r.fields[9], ("raw".to_string(), "10.0.0.1 404 -".to_string()));
    assert_eq!(r.timestamp, None);
    assert!(p.parse("not a line").is_err());
    let standard = parser_from(ParserConfig::Nginx { custom_regex: None }).unwrap();
    assert!(standard.parse("10.0.0.1 404 -").is_err());
}

use rust_log_etl::builder::PipelineBuilder;
use rust_log_etl::config::{default_batch_size, default_format, default_workers, Config, GlobalConfig, InputConfig, ParserConfig, SinkConfig};
use rust_log_etl::cli::RuntimeConfig;
use rust_log_etl::etl_core::sink::SinkStats;
use rust_log_etl::record::{ParsedRecord, Timestamp};
use rust_log_etl::text::{split_whitespace, text_contains};
use rust_log_etl::{FileSink, OutputFormat};

fn record(ts: Option<Timestamp>, fields: &[(&str, &str)]) -> ParsedRecord {
    ParsedRecord { timestamp: ts, fields: fields.iter().map(|(k, v)| (k.to_string(), v.to_string())).collect() }
}

#[test]
fn raw_format_writes_the_raw_field() {
    let sink = FileSink::new(OutputFormat::Raw);
    assert_eq!(sink.format_record(&record(None, &[("a", "1"), ("raw", "the line")])).unwrap(), "the line");
    assert_eq!(sink.format_record(&record(None, &[("a", "1")])).unwrap(), "");
}

#[test]
fn csv_format_joins_values() {
    let sink = FileSink::new(OutputFormat::Csv);
    assert_eq!(sink.format_record(&record(None, &[("a", "1"), ("b", "2"), ("c", "x y")])).unwrap(), "1, 2, x y");
    assert_eq!(sink.format_record(&record(None, &[])).unwrap(), "");
}

#[test]
fn delimited_format_selects_fields() {
    let sink = FileSink::new(OutputFormat::Delimited {
        delimiter: '|',
        fields: vec!["b".to_string(), "missing".to_string(), "a".to_string()],
    });
    assert_eq!(sink.format_record(&record(None, &[("a", "1"), ("b", "2")])).unwrap(), "2||1");
}

#[test]
fn json_format_sorts_members_and_last_field_wins() {
    let sink = FileSink::new(OutputFormat::Json);
    let out = sink.format_record(&record(None, &[("b", "2"), ("a", "x\"y"), ("b", "3")])).unwrap();
    assert_eq!(out, r#"{"a":"x\"y","b":"3"}"#);
}

#[test]
fn json_format_writes_the_timestamp() {
    let sink = FileSink::new(OutputFormat::Json);
    let out = sink.format_record(&record(Some(Timestamp { secs: 971211336, nanos: 0 }), &[("ip", "1.2.3.4")])).unwrap();
    assert_eq!(out, r#"{"ip":"1.2.3.4","timestamp":"2000-10-10T20:55:36+00:00"}"#);
    let out = sink
        .format_record(&record(Some(Timestamp { secs: 0, nanos: 0 }), &[("timestamp", "mine")]))
        .unwrap();
    assert_eq!(out, r#"{"timestamp":"mine"}"#);
}

#[test]
fn output_format_names() {
    assert!(matches!(PipelineBuilder::output_format_named("json"), Some(OutputFormat::Json)));
    assert!(matches!(PipelineBuilder::output_format_named("raw"), Some(OutputFormat::Raw)));
    assert!(matches!(PipelineBuilder::output_format_named("csv"), Some(OutputFormat::Csv)));
    assert!(PipelineBuilder::output_format_named("delimited").is_none());
}

#[test]
fn sink_stats_count_writes() {
    let mut stats = SinkStats::new();
    stats.record_write(true);
    stats.record_write(false);
    stats.record_write(true);
    assert_eq!(stats.records_written, 2);
    assert_eq!(stats.errors, 1);
    assert_eq!(stats.bytes_written, 0);
}

fn config(sink: SinkConfig, parser: ParserConfig) -> Config {
    Config {
        global: GlobalConfig { workers: 8, batch_size: 10 },
        input: InputConfig::File { path: "/in.log".to_string(), checkpoink_file: None },
        parser,
        transformers: vec![],
        sink,
    }
}

#[test]
fn runtime_config_from_configuration() {
    let c = config(
        SinkConfig::File {
            path: "/out.json".to_string(),
            format: "csv".to_string(),
            rotate_size: None,
            rotate_time: None,
            delimiter: None,
            fields: None,
        },
        ParserConfig::Json { field_map: None },
    );
    let rc = RuntimeConfig::from_config_file(&c).unwrap();
    assert_eq!(rc.input_path, "/in.log");
    assert_eq!(rc.output_path, "/out.json");
    assert_eq!(rc.parser_type, "json");
    assert_eq!(rc.output_format, "csv");
    assert_eq!(rc.workers, 8);
    let c = config(
        SinkConfig::Kafka { brokers: vec![], topic: "t".to_string(), batch_size: 1 },
        ParserConfig::Regex { pattern: "x".to_string(), fields: vec![] },
    );
    assert_eq!(RuntimeConfig::from_config_file(&c).err().unwrap(), "Kafka输出请使用配置文件模式");
}

#[test]
fn runtime_config_from_args() {
    let rc = RuntimeConfig::from_args("i".to_string(), "o".to_string(), "nginx".to_string(), "json".to_string(), 4);
    assert_eq!((rc.input_path.as_str(), rc.output_path.as_str()), ("i", "o"));
    assert_eq!((rc.parser_type.as_str(), rc.output_format.as_str(), rc.workers), ("nginx", "json", 4));
}

#[test]
fn defaults() {
    assert_eq!(default_workers(), 4);
    assert_eq!(default_batch_size(), 1000);
    assert_eq!(default_format(), "json");
}

#[test]
fn build_sink_reads_path_and_format() {
    let (path, format) = PipelineBuilder::build_sink(&SinkConfig::File {
        path: "/x".to_string(),
        format: "raw".to_string(),
        rotate_size: None,
        rotate_time: None,
        delimiter: None,
        fields: None,
    })
    .unwrap();
    assert_eq!(path, "/x");
    assert!(matches!(format, OutputFormat::Raw));
}

fn delimited_sink(delimiter: Option<char>, fields: Option<Vec<String>>) -> SinkConfig {
    SinkConfig::File {
        path: "/d".to_string(),
        format: "delimited".to_string(),
        rotate_size: None,
        rotate_time: None,
        delimiter,
        fields,
    }
}

#[test]
fn build_sink_delimited_takes_delimiter_and_fields() {
    let (path, format) =
        PipelineBuilder::build_sink(&delimited_sink(Some('\t'), Some(vec!["ip".to_string(), "status".to_string()])))
            .unwrap();
    assert_eq!(path, "/d");
    match format {
        OutputFormat::Delimited { delimiter, fields } => {
            assert_eq!(delimiter, '\t');
            assert_eq!(fields, vec!["ip".to_string(), "status".to_string()]);
        },
        other => panic!("unexpected {:?}", other),
    }
    let sink = FileSink::new(
        PipelineBuilder::build_sink(&delimited_sink(Some(';'), Some(vec!["status".to_string(), "ip".to_string()])))
            .unwrap()
            .1,
    );
    assert_eq!(sink.format_record(&record(None, &[("ip", "1.2.3.4"), ("status", "200")])).unwrap(), "200;1.2.3.4");
}

#[test]
fn build_sink_delimited_needs_delimiter_and_fields() {
    let msg = "delimited 输出格式需要配置 delimiter 和 fields".to_string();
    assert_eq!(PipelineBuilder::build_sink(&delimited_sink(None, Some(vec!["a".to_string()]))).err(), Some(msg.clone()));
    assert_eq!(PipelineBuilder::build_sink(&delimited_sink(Some(','), None)).err(), Some(msg.clone()));
    assert_eq!(PipelineBuilder::build_sink(&delimited_sink(None, None)).err(), Some(msg));
}

#[test]
fn text_helpers() {
    assert_eq!(split_whitespace(" a\u{2003}b\n c "), vec!["a".to_string(), "b".to_string(), "c".to_string()]);
    assert!(split_whitespace("   ").is_empty());
    assert!(text_contains("hello", "ll"));
    assert!(text_contains("hello", ""));
    assert!(!text_contains("he", "hello"));
}

#[test]
fn split_whitespace_agrees_with_std() {
    let samples = [
        "a b",
        "\u{85}x\u{1680}y\u{2000}z\u{200a}w\u{2028}v\u{2029}u\u{202f}t\u{205f}s\u{3000}r",
        "\u{180e}a\u{200b}b",
        "\t\n\u{b}\u{c}\rq",
        "",
        "one",
    ];
    for s in samples {
        let std_words: Vec<String> = s.split_whitespace().map(|w| w.to_string()).collect();
        assert_eq!(split_whitespace(s), std_words);
    }
}

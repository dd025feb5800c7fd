use rust_log_etl::json::{JsonDocument, JsonMember};
use rust_log_etl::parsers::json_log::JsonParser;
use rust_log_etl::record::Timestamp;
use rust_log_etl::Parser;

#[test]
fn json_object_members_become_fields() {
    let parser = JsonParser::new();
    let record = parser.parse(r#"{"b": "x", "a": 1, "c": [1, "two"], "d": null, "e": {"k": true}}"#).unwrap();
    let expected: Vec<(String, String)> = vec![
        ("a".to_string(), "1".to_string()),
        ("b".to_string(), "x".to_string()),
        ("c".to_string(), r#"[1,"two"]"#.to_string()),
        ("d".to_string(), "null".to_string()),
        ("e".to_string(), r#"{"k":true}"#.to_string()),
    ];
    assert_eq!(record.fields, expected);
    assert_eq!(record.timestamp, None);
}

#[test]
fn json_timestamp_from_time_or_timestamp() {
    let parser = JsonParser::new();
    let record = parser.parse(r#"{"timestamp": "2024-01-01T00:00:01.5Z", "msg": "hi"}"#).unwrap();
    assert_eq!(record.timestamp, Some(Timestamp { secs: 1704067201, nanos: 500_000_000 }));
    let record = parser.parse(r#"{"time": "2024-01-01T01:00:00+01:00"}"#).unwrap();
    assert_eq!(record.timestamp, Some(Timestamp { secs: 1704067200, nanos: 0 }));
}

#[test]
fn json_first_time_field_decides() {
    let parser = JsonParser::new();
    // Members come in key order: "time" before "timestamp"; an unreadable
    // "time" gives no instant even where "timestamp" would read.
    let record = parser.parse(r#"{"timestamp": "2024-01-01T00:00:00Z", "time": "yesterday"}"#).unwrap();
    assert_eq!(record.timestamp, None);
}

#[test]
fn json_non_object_has_no_fields() {
    let parser = JsonParser::new();
    let record = parser.parse("[1, 2, 3]").unwrap();
    assert!(record.fields.is_empty());
    assert_eq!(record.timestamp, None);
    let record = parser.parse("\"just text\"").unwrap();
    assert!(record.fields.is_empty());
}

#[test]
fn json_invalid_line_is_refused() {
    let parser = JsonParser::new();
    let err = parser.parse("{not json").unwrap_err();
    assert!(!err.is_empty());
}

#[test]
fn record_from_document_reads_members() {
    let parser = JsonParser::new();
    let record = parser.record_from_document(JsonDocument::Other(JsonMember::Null));
    assert!(record.fields.is_empty());
    assert_eq!(record.timestamp, None);
    let record = parser.record_from_document(JsonDocument::Object(vec![
        ("time".to_string(), JsonMember::Str("1970-01-01T00:00:10Z".to_string())),
        ("n".to_string(), JsonMember::Number("1.5".to_string())),
        ("b".to_string(), JsonMember::Bool(false)),
        ("z".to_string(), JsonMember::Null),
        ("o".to_string(), JsonMember::Object("{}".to_string())),
    ]));
    assert_eq!(record.timestamp, Some(Timestamp { secs: 10, nanos: 0 }));
    assert_eq!(
        record.fields,
        vec![
            ("time".to_string(), "1970-01-01T00:00:10Z".to_string()),
            ("n".to_string(), "1.5".to_string()),
            ("b".to_string(), "false".to_string()),
            ("z".to_string(), "null".to_string()),
            ("o".to_string(), "{}".to_string()),
        ]
    );
}

#[test]
fn field_map_renames_before_reading_the_instant() {
    let parser = JsonParser::with_field_map(vec![("ts".to_string(), "timestamp".to_string())]);
    let record = parser.parse(r#"{"ts":"2024-01-01T00:00:00Z"}"#).unwrap();
    assert_eq!(record.fields, vec![("timestamp".to_string(), "2024-01-01T00:00:00Z".to_string())]);
    assert_eq!(record.timestamp, Some(Timestamp { secs: 1704067200, nanos: 0 }));
    assert_eq!(parser.rename("ts"), "timestamp");
    assert_eq!(parser.rename("other"), "other");
}

#[test]
fn member_texts() {
    assert_eq!(JsonParser::member_text(&JsonMember::Bool(true)), "true");
    assert_eq!(JsonParser::member_text(&JsonMember::Str("a\"b".to_string())), "a\"b");
    assert_eq!(JsonParser::member_text(&JsonMember::Array("[1]".to_string())), "[1]");
}

use rust_log_etl::parsers::nginx_log::NginxParser;
use rust_log_etl::record::Timestamp;
use rust_log_etl::Parser;

fn field(fields: &[(String, String)], name: &str) -> String {
    fields.iter().find(|(k, _)| k == name).map(|(_, v)| v.clone()).unwrap_or_default()
}

#[test]
fn test_parse_nginx_log() {
    let parser = NginxParser::new();
    let line = r#"127.0.0.1 - frank [10/Oct/2000:13:55:36 -0700] "GET /apache_pb.gif HTTP/1.0" 200 2326 "http://www.example.com/start.html" "Mozilla/4.08 [en] (Win98; I ;Nav)""#;

    let record = parser.parse(line).unwrap();
    assert_eq!(record.timestamp.is_some(), true);

    let get_field = |name: &str| -> String { field(&record.fields, name) };

    assert_eq!(get_field("ip"), "127.0.0.1");
    assert_eq!(get_field("method"), "GET");
    assert_eq!(get_field("url"), "/apache_pb.gif");
    assert_eq!(get_field("status"), "200");
    assert_eq!(get_field("bytes"), "2326");
}

#[test]
fn test_parse_invalid_log() {
    let parser = NginxParser::new();
    let line = "this is not a valid nginx log";

    assert!(parser.parse(line).is_err());
}

#[test]
fn nginx_record_has_all_fields_in_order() {
    let parser = NginxParser::new();
    let line = r#"10.0.0.2 - - [01/Jan/2024:00:00:00 +0000] "POST /api/v1 HTTP/2.0" 404 - "-" "curl/8.0""#;
    let record = parser.parse(line).unwrap();
    let names: Vec<&str> = record.fields.iter().map(|(k, _)| k.as_str()).collect();
    assert_eq!(
        names,
        vec!["ip", "auth_user", "method", "url", "protocol", "status", "bytes", "referer", "user_agent", "raw"]
    );
    assert_eq!(field(&record.fields, "auth_user"), "-");
    assert_eq!(field(&record.fields, "protocol"), "HTTP/2.0");
    assert_eq!(field(&record.fields, "bytes"), "0");
    assert_eq!(field(&record.fields, "referer"), "-");
    assert_eq!(field(&record.fields, "user_agent"), "curl/8.0");
    assert_eq!(field(&record.fields, "raw"), line);
    assert_eq!(record.timestamp, Some(Timestamp { secs: 1704067200, nanos: 0 }));
}

#[test]
fn nginx_timestamp_is_converted_to_utc() {
    let parser = NginxParser::new();
    let line = r#"127.0.0.1 - frank [10/Oct/2000:13:55:36 -0700] "GET / HTTP/1.0" 200 1 "a" "b""#;
    let record = parser.parse(line).unwrap();
    assert_eq!(record.timestamp, Some(Timestamp { secs: 971211336, nanos: 0 }));
}

#[test]
fn nginx_unreadable_time_gives_no_timestamp() {
    let parser = NginxParser::new();
    let line = r#"127.0.0.1 - u [not a time] "GET / HTTP/1.0" 200 1 "a" "b""#;
    let record = parser.parse(line).unwrap();
    assert_eq!(record.timestamp, None);
}

#[test]
fn nginx_failure_message_names_the_line() {
    let parser = NginxParser::new();
    let err = parser.parse("garbage").unwrap_err();
    assert_eq!(err, "日志解析失败行：garbage");
}

#[test]
fn nginx_request_with_one_or_two_words() {
    let parser = NginxParser::new();
    let one = r#"1.2.3.4 - u [01/Jan/2024:00:00:00 +0000] "GET" 200 5 "r" "a""#;
    let record = parser.parse(one).unwrap();
    assert_eq!(field(&record.fields, "method"), "GET");
    assert_eq!(field(&record.fields, "url"), "");
    assert_eq!(field(&record.fields, "protocol"), "");
    let none = r#"1.2.3.4 - u [01/Jan/2024:00:00:00 +0000] "" 200 5 "r" "a""#;
    let record = parser.parse(none).unwrap();
    assert_eq!(field(&record.fields, "method"), "");
}

#[test]
fn parse_request_splits_on_whitespace() {
    assert_eq!(
        NginxParser::parse_request("GET /a HTTP/1.1"),
        ("GET".to_string(), "/a".to_string(), "HTTP/1.1".to_string())
    );
    assert_eq!(NginxParser::parse_request("  GET\t/a  "), ("GET".to_string(), "/a".to_string(), "".to_string()));
    assert_eq!(NginxParser::parse_request("GET"), ("GET".to_string(), "".to_string(), "".to_string()));
    assert_eq!(NginxParser::parse_request(""), ("".to_string(), "".to_string(), "".to_string()));
    assert_eq!(NginxParser::parse_request("a b c d"), ("".to_string(), "".to_string(), "".to_string()));
    assert_eq!(
        NginxParser::parse_request("GET\u{3000}/x\u{a0}HTTP"),
        ("GET".to_string(), "/x".to_string(), "HTTP".to_string())
    );
}

#[test]
fn parse_time_reads_the_log_format() {
    assert_eq!(
        NginxParser::parse_time("10/Oct/2000:13:55:36 -0700"),
        Some(Timestamp { secs: 971211336, nanos: 0 })
    );
    assert_eq!(NginxParser::parse_time("2000-10-10"), None);
}

#[test]
fn record_from_captures_maps_groups_by_name() {
    let names = vec![
        None,
        Some("ip".to_string()),
        Some("auth".to_string()),
        Some("datetime".to_string()),
        Some("request".to_string()),
        Some("status".to_string()),
        Some("bytes".to_string()),
        Some("referer".to_string()),
        Some("user_agent".to_string()),
    ];
    let groups = vec![
        Some("whole".to_string()),
        Some("9.9.9.9".to_string()),
        Some("bob".to_string()),
        Some("bad".to_string()),
        Some("PUT /x HTTP/1.1".to_string()),
        Some("500".to_string()),
        Some("-".to_string()),
        None,
        Some("ua".to_string()),
    ];
    let record = NginxParser::record_from_captures("the line", &names, &groups);
    assert_eq!(field(&record.fields, "ip"), "9.9.9.9");
    assert_eq!(field(&record.fields, "auth_user"), "bob");
    assert_eq!(field(&record.fields, "method"), "PUT");
    assert_eq!(field(&record.fields, "bytes"), "0");
    assert_eq!(field(&record.fields, "referer"), "");
    assert_eq!(field(&record.fields, "raw"), "the line");
    assert_eq!(record.timestamp, None);
}

#[test]
fn try_new_builds_a_parser() {
    assert!(NginxParser::try_new().is_some());
}

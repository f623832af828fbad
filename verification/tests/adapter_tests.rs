use log_pipeline::collector::awscloudwatch::{
    filter_request, poll_records, poll_records_at, AWSCloudWatchConfig, FilterRequest, LogEvent,
    EVENTS_PER_POLL,
};
use log_pipeline::collector::azurelog::{query_records, query_records_at, AzureLogConfig};
use log_pipeline::collector::docker_ingestion::{
    container_entry, container_entry_at, name_matches, select_containers, ContainerSummary,
    DockerIngestionConfig, LogOutput,
};
use log_pipeline::collector::file_ingestion::{
    on_change, ChangeKind, FileCursor, FileIngestionConfig, HANDOFF_CAPACITY,
};
use log_pipeline::collector::googlelog::{
    entry_to_record, poll_records as poll_cloud_records,
    poll_records_at as poll_cloud_records_at, CloudLogEntry, GCPLoggingConfig,
};
use log_pipeline::collector::kafka_ingestion::{message_record, message_record_at};
use log_pipeline::collector::syslog_ingestion::{
    datagram_message, datagram_record as syslog_datagram_record, parse_syslog, parse_syslog_at,
};
use log_pipeline::collector::tcp_ingestion::{line_record, line_record_at};
use log_pipeline::collector::udp_ingestion::{datagram_record, datagram_record_at};
use log_pipeline::models::LogEntry;
use log_pipeline::queue::IngestionQueue;
use log_pipeline::wire::DecodeError;

fn entry(source: &str, level: &str, message: &str, timestamp: &str) -> LogEntry {
    LogEntry {
        source: source.to_string(),
        level: level.to_string(),
        message: message.to_string(),
        timestamp: timestamp.to_string(),
    }
}

fn stamped_within(timestamp: &str, before: chrono::DateTime<chrono::Utc>) -> bool {
    let after = chrono::Utc::now();
    match chrono::DateTime::parse_from_rfc3339(timestamp) {
        Ok(at) => before <= at && at <= after,
        Err(_) => false,
    }
}

#[test]
fn tcp_line_is_one_record() {
    assert_eq!(
        line_record_at(r#"{"source":"tcp","level":"INFO","message":"hi"}"#, "T"),
        Ok(entry("tcp", "INFO", "hi", "T"))
    );
    assert_eq!(line_record_at("garbage", "T"), Err(DecodeError::Syntax));
    assert_eq!(line_record_at("", "T"), Err(DecodeError::Syntax));
    assert_eq!(line_record_at("[]", "T"), Err(DecodeError::Shape));
}

#[test]
fn tcp_connection_goes_on_after_a_malformed_line() {
    let lines = [r#"{"message":"1"}"#, "oops", r#"{"message":"3"}"#];
    let got: Vec<LogEntry> = lines.iter().filter_map(|l| line_record_at(l, "T").ok()).collect();
    assert_eq!(got, vec![entry("", "INFO", "1", "T"), entry("", "INFO", "3", "T")]);
}

#[test]
fn tcp_line_is_stamped_within_the_call() {
    let before = chrono::Utc::now();
    let got = line_record(r#"{"message":"hi"}"#).unwrap();
    assert!(stamped_within(&got.timestamp, before));
    assert_eq!(line_record("x"), Err(DecodeError::Syntax));
}

#[test]
fn udp_datagram_is_one_record() {
    assert_eq!(
        datagram_record_at(br#"{"message":"dgram","level":"DEBUG"}"#, "T"),
        Ok(entry("", "DEBUG", "dgram", "T"))
    );
    assert_eq!(datagram_record_at(b"", "T"), Err(DecodeError::Syntax));
    assert_eq!(datagram_record_at(b"\xff\xff", "T"), Err(DecodeError::Syntax));
    assert_eq!(datagram_record_at(b"{\"source\":\"s\"}", "T"), Err(DecodeError::Shape));
}

#[test]
fn udp_datagram_with_bad_utf8_is_read_with_replacement_characters() {
    assert_eq!(
        datagram_record_at(b"{\"message\":\"a\xffb\"}", "T"),
        Ok(entry("", "INFO", "a\u{fffd}b", "T"))
    );
}

#[test]
fn udp_datagram_is_stamped_within_the_call() {
    let before = chrono::Utc::now();
    let got = datagram_record(br#"{"message":"m"}"#).unwrap();
    assert!(stamped_within(&got.timestamp, before));
    assert_eq!(datagram_record(b"{"), Err(DecodeError::Syntax));
}

#[test]
fn kafka_message_is_one_record() {
    assert_eq!(message_record_at(None, "T"), None);
    assert_eq!(
        message_record_at(Some(br#"{"message":"k","source":"topic"}"#), "T"),
        Some(Ok(entry("topic", "INFO", "k", "T")))
    );
    assert_eq!(message_record_at(Some(b"nope"), "T"), Some(Err(DecodeError::Syntax)));
    assert_eq!(message_record_at(Some(b"{}"), "T"), Some(Err(DecodeError::Shape)));
    assert_eq!(
        message_record_at(Some(b"{\"message\":\"\xc3\"}"), "T"),
        Some(Ok(entry("", "INFO", "\u{fffd}", "T")))
    );
}

#[test]
fn kafka_message_is_stamped_within_the_call() {
    let before = chrono::Utc::now();
    let got = message_record(Some(br#"{"message":"k"}"#)).unwrap().unwrap();
    assert!(stamped_within(&got.timestamp, before));
    assert_eq!(message_record(None), None);
}

#[test]
fn syslog_line_has_three_parts() {
    assert_eq!(
        parse_syslog_at("<34> host1 su: 'su root' failed", "10.0.0.1:514", "T"),
        Some(entry("syslog:10.0.0.1:514", "<34>", "su: 'su root' failed", "T"))
    );
    assert_eq!(parse_syslog_at("ERROR hdr msg", "a", "T"), Some(entry("syslog:a", "ERROR", "msg", "T")));
    assert_eq!(
        parse_syslog_at("WARN host1 disk low", "a", "T"),
        Some(entry("syslog:a", "WARN", "disk low", "T"))
    );
}

#[test]
fn syslog_line_with_fewer_than_three_tokens_is_dropped() {
    assert_eq!(parse_syslog_at("", "a", "T"), None);
    assert_eq!(parse_syslog_at("one", "a", "T"), None);
    assert_eq!(parse_syslog_at("one two", "a", "T"), None);
    assert_eq!(parse_syslog_at(" ", "a", "T"), None);
    assert_eq!(parse_syslog_at("  ", "a", "T"), None);
    assert_eq!(parse_syslog_at("ERROR  disk", "a", "T"), None);
    assert_eq!(parse_syslog_at("a b ", "a", "T"), None);
    assert_eq!(parse_syslog_at(" a b", "a", "T"), None);
    assert_eq!(parse_syslog_at("a \t\n b \r\n", "a", "T"), None);
    assert_eq!(parse_syslog_at("\t\n", "a", "T"), None);
}

#[test]
fn syslog_tokens_are_divided_by_any_whitespace() {
    assert_eq!(parse_syslog_at("a\tb\tc", "s", "T"), Some(entry("syslog:s", "a", "c", "T")));
    assert_eq!(
        parse_syslog_at("tab\tis\ta\tspace", "s", "T"),
        Some(entry("syslog:s", "tab", "a\tspace", "T"))
    );
    assert_eq!(parse_syslog_at("a  b c", "s", "T"), Some(entry("syslog:s", "a", "c", "T")));
    assert_eq!(parse_syslog_at("  a   b   c d  ", "s", "T"), Some(entry("syslog:s", "a", "c d  ", "T")));
    assert_eq!(parse_syslog_at("a\nb\u{3000}c", "s", "T"), Some(entry("syslog:s", "a", "c", "T")));
    assert_eq!(
        parse_syslog_at("WARN host1 disk low\n", "s", "T"),
        Some(entry("syslog:s", "WARN", "disk low\n", "T"))
    );
    assert_eq!(parse_syslog_at("é ü ö ä", "s", "T"), Some(entry("syslog:s", "é", "ö ä", "T")));
    for line in ["x y z", "x y z w", "x  y", "a b c d e", " lead ing", "trail ing ", "a\tb  c\td", "q"] {
        let tokens: Vec<&str> = line.split_whitespace().collect();
        let got = parse_syslog_at(line, "s", "T");
        assert_eq!(got.is_some(), tokens.len() >= 3);
        if let Some(record) = got {
            assert_eq!(record.level, tokens[0]);
            let rest: Vec<&str> = record.message.split_whitespace().collect();
            assert_eq!(rest, tokens[2..].to_vec());
            assert!(line.ends_with(record.message.as_str()));
        }
    }
}

#[test]
fn syslog_listener_drops_a_short_datagram_and_takes_the_next() {
    assert_eq!(syslog_datagram_record(b"ERROR  disk", "h"), None);
    assert_eq!(syslog_datagram_record(b"\xff\xfe", "h"), None);
    let got = syslog_datagram_record(b"WARN host1 disk low", "h").unwrap();
    assert_eq!(got.level, "WARN");
    assert_eq!(got.message, "disk low");
    assert_eq!(got.source, "syslog:h");
}

#[test]
fn syslog_datagram_that_is_no_utf8_is_dropped() {
    assert_eq!(datagram_message(b"<1> h m"), "<1> h m");
    assert_eq!(datagram_message(b"\xff\xfe"), "<invalid UTF-8>");
    assert_eq!(datagram_message(b"ok \xc3\x28 bad"), "<invalid UTF-8>");
    assert_eq!(syslog_datagram_record(b"\xff h m", "a"), None);
    assert_eq!(syslog_datagram_record(b"one two", "a"), None);
}

#[test]
fn syslog_record_is_stamped_within_the_call() {
    let before = chrono::Utc::now();
    let got = parse_syslog("WARN host the message", "1.2.3.4:9").unwrap();
    assert!(stamped_within(&got.timestamp, before));
    assert_eq!(got.source, "syslog:1.2.3.4:9");
    assert_eq!(got.level, "WARN");
    assert_eq!(got.message, "the message");
    let got = syslog_datagram_record(b"<5> h text here", "[::1]:514").unwrap();
    assert!(stamped_within(&got.timestamp, before));
    assert_eq!(got.source, "syslog:[::1]:514");
    assert_eq!(got.message, "text here");
    assert_eq!(parse_syslog("short", "a"), None);
}

fn listed(names: Option<&[&str]>, id: Option<&str>, state: Option<&str>) -> ContainerSummary {
    ContainerSummary {
        names: names.map(|n| n.iter().map(|s| s.to_string()).collect()),
        id: id.map(|s| s.to_string()),
        state: state.map(|s| s.to_string()),
    }
}

#[test]
fn container_name_matches_when_it_holds_the_filter() {
    let names = vec!["/web-1".to_string(), "/test-container-7".to_string()];
    assert!(name_matches(&names, "test-container"));
    assert!(name_matches(&names, "web"));
    assert!(name_matches(&names, ""));
    assert!(!name_matches(&names, "db"));
    assert!(!name_matches(&vec![], "web"));
    assert!(!name_matches(&vec![], ""));
}

#[test]
fn running_containers_that_pass_the_filter_are_followed_in_listing_order() {
    let config = DockerIngestionConfig { container_name: "test-container".to_string() };
    let running = Some("running");
    let containers = vec![
        listed(Some(&["/test-container"]), Some("id-1"), running),
        listed(Some(&["/other"]), Some("id-2"), running),
        listed(None, Some("id-3"), running),
        listed(Some(&["/x", "/my-test-container-2"]), Some("id-4"), running),
        listed(Some(&["/test-container-3"]), None, running),
        listed(Some(&[]), Some("id-6"), running),
        listed(None, None, running),
        listed(Some(&["/test-container-8"]), Some("id-8"), Some("exited")),
        listed(Some(&["/test-container-9"]), Some("id-9"), None),
        listed(Some(&["/test-container-10"]), Some("id-10"), Some("paused")),
        listed(Some(&["/test-container-11"]), Some("id-11"), Some("Running")),
        listed(Some(&["/test-container-12"]), Some("id-12"), Some("")),
        listed(Some(&["/test-container-13"]), Some("id-13"), running),
    ];
    assert_eq!(
        select_containers(&config, &containers),
        vec!["id-1".to_string(), "id-4".to_string(), "id-13".to_string()]
    );
    assert_eq!(select_containers(&config, &vec![]), Vec::<String>::new());
}

#[test]
fn empty_filter_lets_every_named_running_container_pass() {
    let config = DockerIngestionConfig { container_name: String::new() };
    let containers = vec![
        listed(Some(&["/a"]), Some("id-1"), Some("running")),
        listed(None, Some("id-2"), Some("running")),
        listed(Some(&[]), Some("id-3"), Some("running")),
        listed(Some(&["/b"]), Some("id-4"), Some("created")),
    ];
    assert_eq!(select_containers(&config, &containers), vec!["id-1".to_string()]);
}

#[test]
fn container_output_on_stdout_and_stderr_is_a_trimmed_record() {
    let out = LogOutput::StdOut { message: b"  2024-01-01T00:00:00Z started \n".to_vec() };
    assert_eq!(
        container_entry_at("abc123", &out, "T"),
        Some(entry("abc123", "INFO", "2024-01-01T00:00:00Z started", "T"))
    );
    let err = LogOutput::StdErr { message: b"oops\r\n".to_vec() };
    assert_eq!(container_entry_at("abc123", &err, "T"), Some(entry("abc123", "INFO", "oops", "T")));
    let blank = LogOutput::StdOut { message: b"\n".to_vec() };
    assert_eq!(container_entry_at("c", &blank, "T"), Some(entry("c", "INFO", "", "T")));
}

#[test]
fn container_output_on_other_streams_or_in_bad_utf8_is_dropped() {
    assert_eq!(container_entry_at("c", &LogOutput::StdIn { message: b"in".to_vec() }, "T"), None);
    assert_eq!(container_entry_at("c", &LogOutput::Console { message: b"tty".to_vec() }, "T"), None);
    assert_eq!(container_entry_at("c", &LogOutput::StdOut { message: vec![0xff, 0x41] }, "T"), None);
    assert_eq!(container_entry_at("c", &LogOutput::StdErr { message: vec![0xc3] }, "T"), None);
    assert_eq!(container_entry("c", &LogOutput::StdIn { message: b"in".to_vec() }), None);
}

#[test]
fn container_record_is_stamped_within_the_call() {
    let before = chrono::Utc::now();
    let got = container_entry("c9", &LogOutput::StdOut { message: b" line ".to_vec() }).unwrap();
    assert!(stamped_within(&got.timestamp, before));
    assert_eq!((got.source.as_str(), got.level.as_str(), got.message.as_str()), ("c9", "INFO", "line"));
}

#[test]
fn cloudwatch_poll_asks_for_fifty_events_of_the_group() {
    let config = AWSCloudWatchConfig {
        log_group_name: "group".to_string(),
        log_stream_name: Some("stream".to_string()),
    };
    assert_eq!(EVENTS_PER_POLL, 50);
    assert_eq!(
        filter_request(&config),
        FilterRequest {
            log_group_name: "group".to_string(),
            log_stream_names: Some(vec!["stream".to_string()]),
            limit: 50,
        }
    );
    let config = AWSCloudWatchConfig { log_group_name: "g2".to_string(), log_stream_name: None };
    assert_eq!(
        filter_request(&config),
        FilterRequest { log_group_name: "g2".to_string(), log_stream_names: None, limit: 50 }
    );
}

#[test]
fn cloudwatch_events_become_records_with_their_own_time() {
    let config = AWSCloudWatchConfig { log_group_name: "group".to_string(), log_stream_name: None };
    let events = vec![
        LogEvent { message: Some("first".to_string()), timestamp: Some(947638923004) },
        LogEvent { message: None, timestamp: Some(1) },
        LogEvent { message: Some("second".to_string()), timestamp: None },
        LogEvent { message: Some("third".to_string()), timestamp: Some(0) },
        LogEvent { message: Some("fourth".to_string()), timestamp: Some(-1) },
        LogEvent { message: Some("fifth".to_string()), timestamp: Some(1700000000000) },
    ];
    assert_eq!(
        poll_records_at(&config, &events, "NOW"),
        vec![
            entry("group", "INFO", "first", "2000-01-12T01:02:03.004+00:00"),
            entry("group", "INFO", "second", "NOW"),
            entry("group", "INFO", "third", "1970-01-01T00:00:00+00:00"),
            entry("group", "INFO", "fourth", "1969-12-31T23:59:59.999+00:00"),
            entry("group", "INFO", "fifth", "2023-11-14T22:13:20+00:00"),
        ]
    );
    assert_eq!(poll_records_at(&config, &vec![], "NOW"), vec![]);
}

#[test]
fn cloudwatch_event_with_an_instant_out_of_range_gets_the_time_of_reading() {
    let config = AWSCloudWatchConfig { log_group_name: "g".to_string(), log_stream_name: None };
    let events = vec![
        LogEvent { message: Some("far".to_string()), timestamp: Some(i64::MAX) },
        LogEvent { message: Some("past".to_string()), timestamp: Some(i64::MIN) },
    ];
    assert_eq!(
        poll_records_at(&config, &events, "NOW"),
        vec![entry("g", "INFO", "far", "NOW"), entry("g", "INFO", "past", "NOW")]
    );
}

#[test]
fn cloudwatch_records_are_stamped_within_the_call() {
    let config = AWSCloudWatchConfig { log_group_name: "g".to_string(), log_stream_name: None };
    let before = chrono::Utc::now();
    let got = poll_records(
        &config,
        &vec![
            LogEvent { message: Some("a".to_string()), timestamp: None },
            LogEvent { message: Some("b".to_string()), timestamp: Some(0) },
        ],
    );
    assert_eq!(got.len(), 2);
    assert!(stamped_within(&got[0].timestamp, before));
    assert_eq!(got[1].timestamp, "1970-01-01T00:00:00+00:00");
}

#[test]
fn cloud_logging_entries_become_records_with_defaults() {
    let full = CloudLogEntry {
        severity: Some("ERROR".to_string()),
        text_payload: Some("payload".to_string()),
        timestamp: Some("2024-02-02T02:02:02Z".to_string()),
    };
    let bare = CloudLogEntry { severity: None, text_payload: None, timestamp: None };
    assert_eq!(entry_to_record(full.clone(), "NOW"), entry("GCP", "ERROR", "payload", "2024-02-02T02:02:02Z"));
    assert_eq!(entry_to_record(bare.clone(), "NOW"), entry("GCP", "INFO", "", "NOW"));
    assert_eq!(
        poll_cloud_records_at(vec![bare, full], "NOW"),
        vec![entry("GCP", "INFO", "", "NOW"), entry("GCP", "ERROR", "payload", "2024-02-02T02:02:02Z")]
    );
    assert_eq!(poll_cloud_records_at(vec![], "NOW"), vec![]);
    let config = GCPLoggingConfig { project_id: "p".to_string() };
    assert_eq!(config.project_id, "p");
}

#[test]
fn cloud_logging_records_are_stamped_within_the_call() {
    let before = chrono::Utc::now();
    let got = poll_cloud_records(vec![CloudLogEntry {
        severity: None,
        text_payload: Some("x".to_string()),
        timestamp: None,
    }]);
    assert_eq!(got.len(), 1);
    assert!(stamped_within(&got[0].timestamp, before));
    assert_eq!(got[0].message, "x");
}

#[test]
fn log_analytics_answer_is_an_array_of_records() {
    let answer: serde_json::Value = serde_json::from_str(
        r#"[{"source":"az","level":"INFO","message":"one","timestamp":"T1"},{"message":"two"}]"#,
    )
    .unwrap();
    assert_eq!(
        query_records_at(&answer, "NOW"),
        vec![entry("az", "INFO", "one", "T1"), entry("", "INFO", "two", "NOW")]
    );
    let config = AzureLogConfig { workspace_id: "w".to_string(), query: "q".to_string() };
    assert_eq!(config.query, "q");
}

#[test]
fn log_analytics_answer_of_another_shape_gives_nothing() {
    for text in ["{}", r#"{"message":"single"}"#, "3", "null", r#"[{"message":"ok"},{"bad":1}]"#, "[[]]"] {
        let answer: serde_json::Value = serde_json::from_str(text).unwrap();
        assert_eq!(query_records_at(&answer, "NOW"), vec![]);
        assert_eq!(query_records(&answer), vec![]);
    }
    let empty: serde_json::Value = serde_json::from_str("[]").unwrap();
    assert_eq!(query_records_at(&empty, "NOW"), vec![]);
}

#[test]
fn log_analytics_records_are_stamped_within_the_call() {
    let before = chrono::Utc::now();
    let answer: serde_json::Value = serde_json::from_str(r#"[{"message":"m"}]"#).unwrap();
    let got = query_records(&answer);
    assert_eq!(got.len(), 1);
    assert!(stamped_within(&got[0].timestamp, before));
}

#[test]
fn file_lines_give_the_records_of_the_well_formed_lines() {
    let chunk = concat_lines(&[
        r#"{"message":"one"}"#,
        "not json",
        "",
        r#"{"level":"INFO"}"#,
        r#"{"message":"two","source":"file","timestamp":"T2"}"#,
        r#"[{"message":"array"}]"#,
        r#"{"message":"three"}"#,
    ]);
    let mut cursor = FileCursor::new();
    assert_eq!(
        cursor.ingest_log_file_at(0, chunk.as_bytes(), "T"),
        vec![
            entry("", "INFO", "one", "T"),
            entry("file", "INFO", "two", "T2"),
            entry("", "INFO", "three", "T"),
        ]
    );
    assert_eq!(cursor.offset, chunk.len() as u64);
}

fn concat_lines(lines: &[&str]) -> String {
    let mut text = String::new();
    for line in lines {
        text.push_str(line);
        text.push('\n');
    }
    text
}

#[test]
fn file_without_lines_gives_nothing() {
    let mut cursor = FileCursor::new();
    assert_eq!(cursor.ingest_log_file_at(0, b"", "T"), vec![]);
    assert_eq!(cursor.offset, 0);
    assert_eq!(cursor.ingest_log_file_at(0, b"bad\n", "T"), vec![]);
    assert_eq!(cursor.offset, 4);
    assert_eq!(cursor.ingest_log_file_at(4, b"\n\n\n", "T"), vec![]);
    assert_eq!(cursor.offset, 7);
}

#[test]
fn line_that_is_not_yet_complete_waits_for_the_next_reading() {
    let mut cursor = FileCursor::new();
    let first = b"{\"message\":\"a\"}\n{\"mess";
    assert_eq!(cursor.ingest_log_file_at(0, first, "T"), vec![entry("", "INFO", "a", "T")]);
    assert_eq!(cursor.offset, 16);
    assert_eq!(cursor.resume_at(22), 16);
    let second = b"{\"message\":\"b\"}\n";
    assert_eq!(cursor.ingest_log_file_at(16, second, "U"), vec![entry("", "INFO", "b", "U")]);
    assert_eq!(cursor.offset, 32);
    assert_eq!(cursor.ingest_log_file_at(32, b"", "U"), vec![]);
    assert_eq!(cursor.offset, 32);
    assert_eq!(cursor.ingest_log_file_at(32, b"no line feed yet", "U"), vec![]);
    assert_eq!(cursor.offset, 32);
}

#[test]
fn file_read_in_pieces_gives_every_line_once() {
    let file = concat_lines(&[
        r#"{"message":"1"}"#,
        "garbage",
        r#"{"message":"2"}"#,
        r#"{"message":"3","level":"WARN"}"#,
    ]);
    let bytes = file.as_bytes();
    let mut whole = FileCursor::new();
    let expected = whole.ingest_log_file_at(0, bytes, "T");
    assert_eq!(expected.len(), 3);
    for cut in 0..=bytes.len() {
        let mut cursor = FileCursor::new();
        let mut got = cursor.ingest_log_file_at(0, &bytes[..cut], "T");
        let from = cursor.resume_at(bytes.len() as u64);
        got.extend(cursor.ingest_log_file_at(from, &bytes[from as usize..], "T"));
        assert_eq!(got, expected);
        assert_eq!(cursor.offset, whole.offset);
    }
}

#[test]
fn file_that_was_begun_anew_is_read_from_its_start() {
    let cursor = FileCursor { offset: 100 };
    assert_eq!(cursor.resume_at(100), 100);
    assert_eq!(cursor.resume_at(250), 100);
    assert_eq!(cursor.resume_at(99), 0);
    assert_eq!(cursor.resume_at(0), 0);
    assert_eq!(FileCursor::new().resume_at(0), 0);
    assert_eq!(FileCursor::new().resume_at(10), 0);
}

#[test]
fn line_with_carriage_return_is_read_as_without() {
    let mut cursor = FileCursor::new();
    assert_eq!(
        cursor.ingest_log_file_at(0, b"{\"message\":\"crlf\"}\r\n", "T"),
        vec![entry("", "INFO", "crlf", "T")]
    );
    assert_eq!(cursor.offset, 20);
}

#[test]
fn cursor_stops_at_the_last_position() {
    let mut cursor = FileCursor::new();
    assert_eq!(cursor.ingest_log_file_at(u64::MAX - 2, b"x\ny\n", "T"), vec![]);
    assert_eq!(cursor.offset, u64::MAX);
    assert_eq!(cursor.ingest_log_file_at(u64::MAX - 4, b"x\ny\n", "T"), vec![]);
    assert_eq!(cursor.offset, u64::MAX);
    assert_eq!(cursor.ingest_log_file_at(u64::MAX - 5, b"x\ny\n", "T"), vec![]);
    assert_eq!(cursor.offset, u64::MAX - 1);
}

#[test]
fn file_without_the_malformed_line_gives_the_same_records() {
    let with = concat_lines(&[r#"{"message":"a"}"#, "{{{", r#"{"message":"b"}"#]);
    let without = concat_lines(&[r#"{"message":"a"}"#, r#"{"message":"b"}"#]);
    assert_eq!(
        FileCursor::new().ingest_log_file_at(0, with.as_bytes(), "T"),
        FileCursor::new().ingest_log_file_at(0, without.as_bytes(), "T")
    );
}

#[test]
fn file_records_are_stamped_within_the_call() {
    let before = chrono::Utc::now();
    let mut cursor = FileCursor::new();
    let got = cursor.ingest_log_file(0, b"{\"message\":\"m\"}\nx\n");
    assert_eq!(got.len(), 1);
    assert!(stamped_within(&got[0].timestamp, before));
    assert_eq!(cursor.offset, 18);
}

#[test]
fn only_a_modification_hands_paths_to_the_reader() {
    let mut handoff: IngestionQueue<String> = IngestionQueue::new(HANDOFF_CAPACITY);
    assert_eq!(HANDOFF_CAPACITY, 100);
    for kind in [ChangeKind::Any, ChangeKind::Access, ChangeKind::Create, ChangeKind::Remove, ChangeKind::Other] {
        on_change(&mut handoff, kind, vec!["a.log".to_string()]);
        assert_eq!(handoff.len(), 0);
    }
    on_change(&mut handoff, ChangeKind::Modify, vec!["a.log".to_string(), "b.log".to_string()]);
    assert_eq!(handoff.len(), 2);
    assert_eq!(handoff.dequeue(), Some("a.log".to_string()));
    assert_eq!(handoff.dequeue(), Some("b.log".to_string()));
    assert_eq!(handoff.dequeue(), None);
    on_change(&mut handoff, ChangeKind::Modify, vec![]);
    assert_eq!(handoff.len(), 0);
    let config = FileIngestionConfig { log_directory: "./logs".to_string() };
    assert_eq!(config.log_directory, "./logs");
}

#[test]
fn paths_beyond_the_room_of_the_handoff_are_discarded() {
    let mut handoff: IngestionQueue<String> = IngestionQueue::new(3);
    on_change(&mut handoff, ChangeKind::Modify, vec!["1".to_string(), "2".to_string()]);
    on_change(
        &mut handoff,
        ChangeKind::Modify,
        vec!["3".to_string(), "4".to_string(), "5".to_string()],
    );
    assert_eq!(handoff.len(), 3);
    on_change(&mut handoff, ChangeKind::Modify, vec!["6".to_string()]);
    assert_eq!(handoff.len(), 3);
    assert_eq!(handoff.dequeue(), Some("1".to_string()));
    assert_eq!(handoff.dequeue(), Some("2".to_string()));
    assert_eq!(handoff.dequeue(), Some("3".to_string()));
    assert_eq!(handoff.dequeue(), None);
}

use log_pipeline::codec::Codec;
use log_pipeline::collector::forwarder::{
    compress_logs, delivered, send_logs, Event, FlushPlan, Forwarder, DEFAULT_BATCH_SIZE,
    DEFAULT_FLUSH_PERIOD_MS,
};
use log_pipeline::models::LogEntry;
use log_pipeline::wire::encode_batch;

fn numbered(i: usize) -> LogEntry {
    LogEntry {
        source: format!("src-{}", i),
        level: "INFO".to_string(),
        message: format!("message {}", i),
        timestamp: format!("2024-01-01T00:00:{:02}+00:00", i % 60),
    }
}

#[test]
fn defaults_are_one_hundred_records_and_five_seconds() {
    assert_eq!(DEFAULT_BATCH_SIZE, 100);
    assert_eq!(DEFAULT_FLUSH_PERIOD_MS, 5000);
}

#[test]
fn new_forwarder_holds_nothing_and_has_no_deadline() {
    let forwarder = Forwarder::new(100, 5000);
    assert_eq!(forwarder.pending(), 0);
    assert_eq!(forwarder.deadline(), None);
}

#[test]
fn hundred_records_at_once_are_flushed_at_the_hundredth() {
    let mut forwarder = Forwarder::new(100, 5000);
    let records: Vec<LogEntry> = (0..100).map(numbered).collect();
    for (i, record) in records.iter().enumerate().take(99) {
        assert_eq!(forwarder.on_record(record.clone(), 1000), None);
        assert_eq!(forwarder.pending(), i + 1);
    }
    let flushed = forwarder.on_record(records[99].clone(), 1000);
    assert_eq!(flushed, Some(records));
    assert_eq!(forwarder.pending(), 0);
    assert_eq!(forwarder.deadline(), None);
}

#[test]
fn one_record_is_flushed_when_the_timer_fires_five_seconds_later() {
    let mut forwarder = Forwarder::new(100, 5000);
    assert_eq!(forwarder.on_record(numbered(1), 20_000), None);
    assert_eq!(forwarder.deadline(), Some(25_000));
    assert_eq!(forwarder.on_timer(24_999), None);
    assert_eq!(forwarder.pending(), 1);
    assert_eq!(forwarder.on_timer(25_000), Some(vec![numbered(1)]));
    assert_eq!(forwarder.pending(), 0);
    assert_eq!(forwarder.deadline(), None);
    assert_eq!(forwarder.on_timer(30_000), None);
}

#[test]
fn timer_on_an_empty_batch_flushes_nothing() {
    let mut forwarder = Forwarder::new(100, 5000);
    assert_eq!(forwarder.on_timer(0), None);
    assert_eq!(forwarder.on_timer(u64::MAX), None);
    assert_eq!(forwarder.pending(), 0);
}

#[test]
fn deadline_is_set_by_the_first_record_of_a_batch_only() {
    let mut forwarder = Forwarder::new(10, 5000);
    assert_eq!(forwarder.on_record(numbered(1), 100), None);
    assert_eq!(forwarder.deadline(), Some(5100));
    assert_eq!(forwarder.on_record(numbered(2), 4000), None);
    assert_eq!(forwarder.deadline(), Some(5100));
    assert_eq!(forwarder.on_timer(5099), None);
    assert_eq!(forwarder.on_record(numbered(3), 5099), None);
    assert_eq!(forwarder.on_timer(5100), Some(vec![numbered(1), numbered(2), numbered(3)]));
    assert_eq!(forwarder.on_record(numbered(4), 7000), None);
    assert_eq!(forwarder.deadline(), Some(12_000));
}

#[test]
fn time_left_counts_down_to_the_deadline() {
    let mut forwarder = Forwarder::new(10, 5000);
    assert_eq!(forwarder.time_left(0), None);
    assert_eq!(forwarder.on_record(numbered(1), 1000), None);
    assert_eq!(forwarder.time_left(1000), Some(5000));
    assert_eq!(forwarder.time_left(4000), Some(2000));
    assert_eq!(forwarder.time_left(5999), Some(1));
    assert_eq!(forwarder.time_left(6000), Some(0));
    assert_eq!(forwarder.time_left(9000), Some(0));
    assert_eq!(forwarder.time_left(0), Some(6000));
    assert_eq!(forwarder.on_timer(6000), Some(vec![numbered(1)]));
    assert_eq!(forwarder.time_left(6000), None);
}

#[test]
fn deadline_stops_at_the_end_of_the_clock() {
    let mut forwarder = Forwarder::new(10, 5000);
    assert_eq!(forwarder.on_record(numbered(1), u64::MAX - 10), None);
    assert_eq!(forwarder.deadline(), Some(u64::MAX));
    assert_eq!(forwarder.on_timer(u64::MAX - 1), None);
    assert_eq!(forwarder.on_timer(u64::MAX), Some(vec![numbered(1)]));
}

#[test]
fn threshold_of_one_or_zero_flushes_every_record_alone() {
    for threshold in [0usize, 1] {
        let mut forwarder = Forwarder::new(threshold, 5000);
        for i in 0..5 {
            assert_eq!(forwarder.on_record(numbered(i), 0), Some(vec![numbered(i)]));
            assert_eq!(forwarder.pending(), 0);
            assert_eq!(forwarder.deadline(), None);
        }
    }
}

#[test]
fn steps_flush_every_record_once_and_in_order() {
    let mut forwarder = Forwarder::new(3, 100);
    let mut flushed: Vec<LogEntry> = Vec::new();
    let mut sent: Vec<LogEntry> = Vec::new();
    let mut now = 0u64;
    for i in 0..50usize {
        now += (i as u64 * 37) % 90;
        let event = if i % 4 == 3 {
            Event::Timer { at: now }
        } else {
            sent.push(numbered(i));
            Event::Record { record: numbered(i), at: now }
        };
        if let Some(batch) = forwarder.step(event) {
            assert!(!batch.is_empty() && batch.len() <= 3);
            flushed.extend(batch);
        }
        assert!(forwarder.pending() < 3);
        assert_eq!(forwarder.deadline().is_some(), forwarder.pending() > 0);
    }
    if let Some(batch) = forwarder.step(Event::Timer { at: u64::MAX }) {
        flushed.extend(batch);
    }
    assert_eq!(forwarder.pending(), 0);
    assert_eq!(flushed, sent);
}

#[test]
fn empty_batch_is_not_sent() {
    assert_eq!(send_logs(&vec![], Codec::Lz4), FlushPlan::Nothing);
    assert_eq!(send_logs(&vec![], Codec::Zstd), FlushPlan::Nothing);
}

#[test]
fn flushed_batch_is_sent_compressed_under_the_name_of_the_codec() {
    let batch = vec![numbered(1), numbered(2)];
    for codec in [Codec::Lz4, Codec::Zstd] {
        match send_logs(&batch, codec) {
            FlushPlan::Post(request) => {
                assert_eq!(request.content_encoding, codec.name());
                assert_eq!(Some(request.body.clone()), compress_logs(&batch, codec));
                assert_eq!(codec.decompress(&request.body), Some(encode_batch(&batch)));
            },
            other => panic!("no request: {:?}", other),
        }
    }
}

#[test]
fn compressed_batch_is_the_compressed_json_array() {
    let batch = vec![numbered(7)];
    let json = encode_batch(&batch);
    assert_eq!(compress_logs(&batch, Codec::Lz4), Some(lz4_flex::compress_prepend_size(&json)));
    assert_eq!(
        compress_logs(&batch, Codec::Zstd),
        Some(zstd::stream::encode_all(&json[..], 0).unwrap())
    );
    assert_eq!(compress_logs(&vec![], Codec::Lz4), Some(lz4_flex::compress_prepend_size(b"[]")));
}

#[test]
fn only_a_success_status_counts_as_delivered() {
    assert!(delivered(Some(200)));
    assert!(delivered(Some(204)));
    assert!(delivered(Some(299)));
    assert!(!delivered(Some(199)));
    assert!(!delivered(Some(300)));
    assert!(!delivered(Some(400)));
    assert!(!delivered(Some(500)));
    assert!(!delivered(Some(0)));
    assert!(!delivered(None));
}

#[test]
fn every_batch_that_is_not_empty_is_posted() {
    for n in [1usize, 2, 100, 5000] {
        let batch: Vec<LogEntry> = (0..n).map(numbered).collect();
        for codec in [Codec::Lz4, Codec::Zstd] {
            match send_logs(&batch, codec) {
                FlushPlan::Post(request) => {
                    assert_eq!(request.content_encoding, codec.name());
                    assert_eq!(codec.decompress(&request.body), Some(encode_batch(&batch)));
                },
                other => panic!("no request: {:?}", other),
            }
        }
    }
}

#[test]
fn batch_beyond_the_limits_of_the_receiver_is_posted_all_the_same() {
    let big = "x".repeat(1 << 20);
    let batch: Vec<LogEntry> = (0..65)
        .map(|i| LogEntry {
            source: format!("s{}", i),
            level: "INFO".to_string(),
            message: big.clone(),
            timestamp: "t".to_string(),
        })
        .collect();
    let json = encode_batch(&batch);
    assert!(json.len() > log_pipeline::codec::MAX_PLAIN_LEN);
    for codec in [Codec::Lz4, Codec::Zstd] {
        match send_logs(&batch, codec) {
            FlushPlan::Post(request) => {
                assert_eq!(request.content_encoding, codec.name());
                assert_eq!(codec.decompress(&request.body), None);
            },
            other => panic!("no request: {:?}", other),
        }
    }
    assert!(lz4_flex::decompress_size_prepended(&compress_logs(&batch, Codec::Lz4).unwrap()).unwrap() == json);
}

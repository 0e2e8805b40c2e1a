use logstreamer::filter::LogFilter;
use logstreamer::hub::{BroadcastHub, Delivery};
use logstreamer::metrics::MetricsCollector;
use logstreamer::record::{LogLevel, LogRecord};
use logstreamer::stream::{ConnectionStep, LogStreamer, ReadOutcome};

fn messages(hub: &BroadcastHub, cursor: &mut logstreamer::hub::Cursor) -> Vec<String> {
    let mut seen = Vec::new();
    while let Delivery::Record(record) = hub.poll(cursor) {
        seen.push(record.get("message").unwrap().clone());
    }
    seen
}

#[test]
fn end_of_stream_closes_and_changes_nothing() {
    let streamer = LogStreamer::new();
    let mut metrics = MetricsCollector::new();
    let mut hub = BroadcastHub::new(4);
    let step = streamer.handle_read_at(ReadOutcome::Read(0), "", "t".to_string(), &mut metrics, &mut hub);
    assert_eq!(step, ConnectionStep::Close);
    assert_eq!(hub.published(), 0);
    assert_eq!(metrics.snapshot_at(1).logs_processed, 0);
}

#[test]
fn failed_read_fails_and_changes_nothing() {
    let streamer = LogStreamer::new();
    let mut metrics = MetricsCollector::new();
    let mut hub = BroadcastHub::new(4);
    let step = streamer.handle_read_at(ReadOutcome::Failed, "half a li", "t".to_string(), &mut metrics, &mut hub);
    assert_eq!(step, ConnectionStep::Fail);
    assert_eq!(hub.published(), 0);
    assert_eq!(metrics.snapshot_at(1).logs_processed, 0);
}

#[test]
fn line_is_counted_and_published() {
    let streamer = LogStreamer::new();
    let mut metrics = MetricsCollector::new();
    let mut hub = BroadcastHub::new(4);
    let mut cursor = hub.subscribe();
    let step = streamer.handle_read_at(
        ReadOutcome::Read(17),
        "ERROR: disk full\n",
        "2024-05-01T10:00:00+00:00".to_string(),
        &mut metrics,
        &mut hub,
    );
    assert_eq!(step, ConnectionStep::Continue);
    assert_eq!(metrics.snapshot_at(1).logs_processed, 1);
    match hub.poll(&mut cursor) {
        Delivery::Record(record) => {
            assert_eq!(record.get("message").unwrap(), "ERROR: disk full");
            assert_eq!(record.get("level").unwrap(), "ERROR");
            assert_eq!(record.get("source").unwrap(), "tcp_stream");
            assert_eq!(record.get("timestamp").unwrap(), "2024-05-01T10:00:00+00:00");
        }
        _ => panic!("the record was published"),
    }
}

#[test]
fn line_is_published_without_any_subscriber() {
    let streamer = LogStreamer::new();
    let mut metrics = MetricsCollector::new();
    let mut hub = BroadcastHub::new(4);
    let step = streamer.handle_read(ReadOutcome::Read(3), "hi\n", &mut metrics, &mut hub);
    assert_eq!(step, ConnectionStep::Continue);
    assert_eq!(hub.published(), 1);
    assert_eq!(metrics.snapshot_at(1).logs_processed, 1);
}

#[test]
fn filtered_line_is_neither_counted_nor_published() {
    let mut filter = LogFilter::new();
    filter.set_level_filter("ERROR".to_string());
    let streamer = LogStreamer::with_filter(filter);
    let mut metrics = MetricsCollector::new();
    let mut hub = BroadcastHub::new(4);
    let mut cursor = hub.subscribe();
    for text in ["INFO: server started\n", "ERROR: disk full\n", "warn: hot\n", "an error again\n"] {
        let step = streamer.handle_read(ReadOutcome::Read(text.len()), text, &mut metrics, &mut hub);
        assert_eq!(step, ConnectionStep::Continue);
    }
    assert_eq!(metrics.snapshot_at(1).logs_processed, 2);
    assert_eq!(hub.published(), 2);
    assert_eq!(messages(&hub, &mut cursor), vec!["ERROR: disk full", "an error again"]);
}

#[test]
fn ingest_says_whether_the_record_passed() {
    let mut filter = LogFilter::new();
    filter.add_regex_filter("disk").unwrap();
    let streamer = LogStreamer::with_filter(filter);
    let mut metrics = MetricsCollector::new();
    let mut hub = BroadcastHub::new(4);
    assert!(streamer.ingest(LogRecord::from_line("t".to_string(), "disk full"), &mut metrics, &mut hub));
    assert!(!streamer.ingest(LogRecord::from_line("t".to_string(), "cpu hot"), &mut metrics, &mut hub));
    assert_eq!(hub.published(), 1);
    assert_eq!(metrics.snapshot_at(1).logs_processed, 1);
}

#[test]
fn parse_log_line_stamps_the_current_time() {
    let streamer = LogStreamer::new();
    let record = streamer.parse_log_line("  WARN: hot  \n");
    assert_eq!(record.get("message").unwrap(), "WARN: hot");
    assert_eq!(record.get("level").unwrap(), "WARN");
    assert_eq!(record.get("source").unwrap(), "tcp_stream");
    let stamp = record.get("timestamp").unwrap();
    let parsed = chrono::DateTime::parse_from_rfc3339(stamp).unwrap();
    assert_eq!(parsed.offset().local_minus_utc(), 0);
    let age = chrono::Utc::now().signed_duration_since(parsed);
    assert!(age.num_seconds() >= 0 && age.num_seconds() < 60);
}

#[test]
fn extract_log_level_of_a_line() {
    let streamer = LogStreamer::new();
    assert_eq!(streamer.extract_log_level("warn: error ahead"), LogLevel::Error);
    assert_eq!(streamer.extract_log_level("information"), LogLevel::Info);
    assert_eq!(streamer.extract_log_level("trace"), LogLevel::Debug);
}

#[test]
fn streamer_keeps_its_filter() {
    let mut filter = LogFilter::new();
    filter.add_field_filter("level".to_string(), "INFO".to_string());
    let streamer = LogStreamer::with_filter(filter);
    assert!(streamer.filter().should_process(&LogRecord::from_line("t".to_string(), "info")));
    assert!(!streamer.filter().should_process(&LogRecord::from_line("t".to_string(), "error")));
    assert!(LogStreamer::new().filter().should_process(&LogRecord::from_line("t".to_string(), "error")));
}

#[test]
fn examine_touches_no_service_and_hands_back_the_record() {
    let mut filter = LogFilter::new();
    filter.set_level_filter("ERROR".to_string());
    let streamer = LogStreamer::with_filter(filter);
    let (step, record) = streamer.examine_at(ReadOutcome::Read(17), "ERROR: disk full\n", "t0".to_string());
    assert_eq!(step, ConnectionStep::Continue);
    let record = record.unwrap();
    assert_eq!(record.get("message").unwrap(), "ERROR: disk full");
    assert_eq!(record.get("timestamp").unwrap(), "t0");
    let (step, record) = streamer.examine_at(ReadOutcome::Read(21), "INFO: server started\n", "t1".to_string());
    assert_eq!(step, ConnectionStep::Continue);
    assert!(record.is_none());
    let (step, record) = streamer.examine_at(ReadOutcome::Read(0), "", "t2".to_string());
    assert_eq!(step, ConnectionStep::Close);
    assert!(record.is_none());
    let (step, record) = streamer.examine_at(ReadOutcome::Failed, "ERROR: half", "t3".to_string());
    assert_eq!(step, ConnectionStep::Fail);
    assert!(record.is_none());
}

#[test]
fn examine_stamps_a_line_with_the_current_time() {
    let streamer = LogStreamer::new();
    let (step, record) = streamer.examine(ReadOutcome::Read(3), "hi\n");
    assert_eq!(step, ConnectionStep::Continue);
    let record = record.unwrap();
    assert!(chrono::DateTime::parse_from_rfc3339(record.get("timestamp").unwrap()).is_ok());
    let (step, record) = streamer.examine(ReadOutcome::Read(0), "");
    assert_eq!(step, ConnectionStep::Close);
    assert!(record.is_none());
    let (step, record) = streamer.examine(ReadOutcome::Failed, "");
    assert_eq!(step, ConnectionStep::Fail);
    assert!(record.is_none());
}

#[test]
fn deliver_counts_and_publishes() {
    let mut metrics = MetricsCollector::new();
    let mut hub = BroadcastHub::new(4);
    let mut cursor = hub.subscribe();
    LogStreamer::deliver(LogRecord::from_line("t".to_string(), "one"), &mut metrics, &mut hub);
    LogStreamer::deliver(LogRecord::from_line("t".to_string(), "two"), &mut metrics, &mut hub);
    assert_eq!(metrics.snapshot_at(1).logs_processed, 2);
    assert_eq!(hub.published(), 2);
    assert_eq!(messages(&hub, &mut cursor), vec!["one", "two"]);
}

#[test]
fn timestamp_is_a_utc_time_with_offset() {
    let streamer = LogStreamer::new();
    for _ in 0..50 {
        let record = streamer.parse_log_line("x");
        let stamp = record.get("timestamp").unwrap();
        assert!(stamp.chars().count() >= 25);
        assert!(stamp.ends_with("+00:00"));
        assert_eq!(&stamp[4..5], "-");
        assert_eq!(&stamp[10..11], "T");
    }
}

#[test]
fn level_filter_scenario_through_the_streamer() {
    let mut filter = LogFilter::new();
    filter.set_level_filter("ERROR".to_string());
    let streamer = LogStreamer::with_filter(filter);
    let mut metrics = MetricsCollector::new();
    let mut hub = BroadcastHub::new(4);
    let mut cursor = hub.subscribe();
    let reads = [
        (ReadOutcome::Read(21), "INFO: server started\n", ConnectionStep::Continue),
        (ReadOutcome::Read(17), "ERROR: disk full\n", ConnectionStep::Continue),
        (ReadOutcome::Read(0), "", ConnectionStep::Close),
    ];
    for (outcome, line, expected) in reads {
        assert_eq!(streamer.handle_read(outcome, line, &mut metrics, &mut hub), expected);
    }
    assert_eq!(metrics.snapshot_at(1).logs_processed, 1);
    assert_eq!(hub.published(), 1);
    match hub.poll(&mut cursor) {
        Delivery::Record(record) => {
            assert_eq!(record.get("message").unwrap(), "ERROR: disk full");
            assert_eq!(record.get("level").unwrap(), "ERROR");
            assert_eq!(record.get("source").unwrap(), "tcp_stream");
        }
        _ => panic!("one record was published"),
    }
    assert!(matches!(hub.poll(&mut cursor), Delivery::Pending));
}

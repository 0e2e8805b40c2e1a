use logstreamer::hub::{BroadcastHub, Cursor, Delivery, DEFAULT_CAPACITY};
use logstreamer::record::LogRecord;

fn named(name: &str) -> LogRecord {
    LogRecord::new().with_field("message".to_string(), name.to_string())
}

fn name_of(record: &LogRecord) -> String {
    record.get("message").unwrap().clone()
}

/// Reads until nothing is left; a miss is written as `-` and its count.
fn observe(hub: &BroadcastHub, cursor: &mut Cursor) -> Vec<String> {
    let mut seen = Vec::new();
    loop {
        match hub.poll(cursor) {
            Delivery::Record(record) => seen.push(name_of(&record)),
            Delivery::Missed(count) => seen.push(format!("-{}", count)),
            Delivery::Pending => return seen,
        }
    }
}

#[test]
fn hub_scenario_capacity_two() {
    let mut hub = BroadcastHub::new(2);
    hub.publish(named("A"));
    hub.publish(named("B"));
    hub.publish(named("C"));
    let mut cursor = hub.subscribe();
    hub.publish(named("D"));
    assert_eq!(observe(&hub, &mut cursor), vec!["D"]);
}

#[test]
fn new_subscription_sees_no_history() {
    let mut hub = BroadcastHub::new(10);
    hub.publish(named("A"));
    hub.publish(named("B"));
    hub.publish(named("C"));
    let mut cursor = hub.subscribe();
    assert!(matches!(hub.poll(&mut cursor), Delivery::Pending));
    assert!(matches!(hub.poll(&mut cursor), Delivery::Pending));
    hub.publish(named("D"));
    assert_eq!(observe(&hub, &mut cursor), vec!["D"]);
    assert!(matches!(hub.poll(&mut cursor), Delivery::Pending));
}

#[test]
fn delivery_keeps_publish_order() {
    let mut hub = BroadcastHub::new(8);
    let mut cursor = hub.subscribe();
    for name in ["A", "B", "C", "D", "E"] {
        hub.publish(named(name));
    }
    assert_eq!(observe(&hub, &mut cursor), vec!["A", "B", "C", "D", "E"]);
}

#[test]
fn delivery_keeps_publish_order_across_reads() {
    let mut hub = BroadcastHub::new(3);
    let mut cursor = hub.subscribe();
    hub.publish(named("A"));
    hub.publish(named("B"));
    let mut seen = observe(&hub, &mut cursor);
    hub.publish(named("C"));
    seen.extend(observe(&hub, &mut cursor));
    hub.publish(named("D"));
    hub.publish(named("E"));
    hub.publish(named("F"));
    seen.extend(observe(&hub, &mut cursor));
    assert_eq!(seen, vec!["A", "B", "C", "D", "E", "F"]);
}

#[test]
fn slow_subscriber_misses_the_oldest_records() {
    let mut hub = BroadcastHub::new(2);
    let mut cursor = hub.subscribe();
    for name in ["A", "B", "C", "D", "E"] {
        hub.publish(named(name));
    }
    match hub.poll(&mut cursor) {
        Delivery::Missed(count) => assert_eq!(count, 3),
        _ => panic!("three records were dropped"),
    }
    assert_eq!(observe(&hub, &mut cursor), vec!["D", "E"]);
}

#[test]
fn full_buffer_without_overflow_loses_nothing() {
    let mut hub = BroadcastHub::new(3);
    let mut cursor = hub.subscribe();
    for name in ["A", "B", "C"] {
        hub.publish(named(name));
    }
    assert_eq!(observe(&hub, &mut cursor), vec!["A", "B", "C"]);
}

#[test]
fn subscribers_read_independently() {
    let mut hub = BroadcastHub::new(4);
    let mut first = hub.subscribe();
    hub.publish(named("A"));
    hub.publish(named("B"));
    let mut second = hub.subscribe();
    hub.publish(named("C"));
    assert_eq!(observe(&hub, &mut second), vec!["C"]);
    assert_eq!(observe(&hub, &mut first), vec!["A", "B", "C"]);
    hub.publish(named("D"));
    assert_eq!(observe(&hub, &mut first), vec!["D"]);
    assert_eq!(observe(&hub, &mut second), vec!["D"]);
}

#[test]
fn publish_needs_no_subscriber() {
    let mut hub = BroadcastHub::new(2);
    for name in ["A", "B", "C", "D"] {
        hub.publish(named(name));
    }
    assert_eq!(hub.published(), 4);
    assert_eq!(hub.capacity(), 2);
}

#[test]
fn hub_without_room_keeps_nothing() {
    let mut hub = BroadcastHub::new(0);
    let mut cursor = hub.subscribe();
    hub.publish(named("A"));
    hub.publish(named("B"));
    assert_eq!(observe(&hub, &mut cursor), vec!["-2"]);
    hub.publish(named("C"));
    assert_eq!(observe(&hub, &mut cursor), vec!["-1"]);
}

#[test]
fn hub_of_capacity_one_keeps_the_newest() {
    let mut hub = BroadcastHub::new(1);
    let mut cursor = hub.subscribe();
    hub.publish(named("A"));
    assert_eq!(observe(&hub, &mut cursor), vec!["A"]);
    hub.publish(named("B"));
    hub.publish(named("C"));
    assert_eq!(observe(&hub, &mut cursor), vec!["-1", "C"]);
}

#[test]
fn default_capacity_is_a_thousand() {
    assert_eq!(DEFAULT_CAPACITY, 1000);
    let mut hub = BroadcastHub::new(DEFAULT_CAPACITY);
    let mut cursor = hub.subscribe();
    for i in 0..1001 {
        hub.publish(named(&i.to_string()));
    }
    match hub.poll(&mut cursor) {
        Delivery::Missed(count) => assert_eq!(count, 1),
        _ => panic!("one record was dropped"),
    }
    let seen = observe(&hub, &mut cursor);
    assert_eq!(seen.len(), 1000);
    assert_eq!(seen[0], "1");
    assert_eq!(seen[999], "1000");
}

#[test]
fn record_is_handed_over_with_all_its_fields() {
    let mut hub = BroadcastHub::new(2);
    let mut cursor = hub.subscribe();
    let record = LogRecord::from_line("t1".to_string(), "WARN: hot");
    let expected = record.to_pairs();
    hub.publish(record);
    match hub.poll(&mut cursor) {
        Delivery::Record(got) => assert_eq!(got.to_pairs(), expected),
        _ => panic!("a record was published"),
    }
}

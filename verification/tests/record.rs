use logstreamer::fields::FieldMap;
use logstreamer::record::{LogLevel, LogRecord, INGEST_SOURCE};

fn text(value: Option<&String>) -> Option<&str> {
    value.map(|v| v.as_str())
}

#[test]
fn level_follows_priority_not_position() {
    assert_eq!(LogLevel::infer("info: recovered from ERROR"), LogLevel::Error);
    assert_eq!(LogLevel::infer("INFO then WARN"), LogLevel::Warn);
    assert_eq!(LogLevel::infer("WARN before ERROR"), LogLevel::Error);
    assert_eq!(LogLevel::infer("just INFO"), LogLevel::Info);
}

#[test]
fn level_defaults_to_debug() {
    assert_eq!(LogLevel::infer("nothing to see"), LogLevel::Debug);
    assert_eq!(LogLevel::infer(""), LogLevel::Debug);
}

#[test]
fn level_ignores_case() {
    assert_eq!(LogLevel::infer("error: disk full"), LogLevel::Error);
    assert_eq!(LogLevel::infer("Warning: hot"), LogLevel::Warn);
    assert_eq!(LogLevel::infer("iNfO"), LogLevel::Info);
}

#[test]
fn level_keyword_may_be_part_of_a_word() {
    assert_eq!(LogLevel::infer("misinformation"), LogLevel::Info);
    assert_eq!(LogLevel::infer("terrors"), LogLevel::Error);
}

#[test]
fn level_from_uppercase_looks_at_the_text_as_given() {
    assert_eq!(LogLevel::from_uppercase("AN ERROR"), LogLevel::Error);
    assert_eq!(LogLevel::from_uppercase("an error"), LogLevel::Debug);
    assert_eq!(LogLevel::from_uppercase("WARN INFO"), LogLevel::Warn);
}

#[test]
fn level_names() {
    assert_eq!(LogLevel::Error.as_str(), "ERROR");
    assert_eq!(LogLevel::Warn.as_str(), "WARN");
    assert_eq!(LogLevel::Info.as_str(), "INFO");
    assert_eq!(LogLevel::Debug.as_str(), "DEBUG");
}

#[test]
fn record_from_line_has_the_four_fields() {
    let record = LogRecord::from_line("2024-05-01T10:00:00+00:00".to_string(), "  ERROR: disk full \r\n");
    assert_eq!(text(record.get("timestamp")), Some("2024-05-01T10:00:00+00:00"));
    assert_eq!(text(record.get("message")), Some("ERROR: disk full"));
    assert_eq!(text(record.get("level")), Some("ERROR"));
    assert_eq!(text(record.get("source")), Some("tcp_stream"));
    assert_eq!(INGEST_SOURCE, "tcp_stream");
    assert_eq!(record.to_pairs().len(), 4);
}

#[test]
fn record_message_is_trimmed_on_both_sides() {
    let record = LogRecord::from_line("t".to_string(), "\t  hello  world \n");
    assert_eq!(text(record.get("message")), Some("hello  world"));
    let blank = LogRecord::from_line("t".to_string(), "   \n");
    assert_eq!(text(blank.get("message")), Some(""));
    assert_eq!(text(blank.get("level")), Some("DEBUG"));
}

#[test]
fn record_from_parts_keeps_what_it_is_given() {
    let record = LogRecord::from_parts("t0".to_string(), "  padded ".to_string(), LogLevel::Warn);
    assert_eq!(text(record.get("timestamp")), Some("t0"));
    assert_eq!(text(record.get("message")), Some("  padded "));
    assert_eq!(text(record.get("level")), Some("WARN"));
    assert_eq!(text(record.get("source")), Some("tcp_stream"));
}

#[test]
fn record_lacks_what_was_not_set() {
    let record = LogRecord::new().with_field("host".to_string(), "a1".to_string());
    assert_eq!(text(record.get("host")), Some("a1"));
    assert_eq!(record.get("level"), None);
    assert_eq!(record.get("message"), None);
    assert_eq!(LogRecord::new().get("host"), None);
}

#[test]
fn record_field_is_overwritten_by_a_later_value() {
    let record = LogRecord::new()
        .with_field("host".to_string(), "a1".to_string())
        .with_field("zone".to_string(), "eu".to_string())
        .with_field("host".to_string(), "b2".to_string());
    assert_eq!(text(record.get("host")), Some("b2"));
    assert_eq!(text(record.get("zone")), Some("eu"));
    assert_eq!(record.to_pairs().len(), 2);
}

#[test]
fn record_clone_has_the_same_fields() {
    let record = LogRecord::from_line("t".to_string(), "INFO: up");
    let copy = record.clone();
    assert_eq!(copy.to_pairs(), record.to_pairs());
    assert_eq!(text(copy.get("level")), Some("INFO"));
}

#[test]
fn field_map_insert_get_clear() {
    let mut fields = FieldMap::new();
    assert!(fields.is_empty());
    fields.insert("a".to_string(), "1".to_string());
    fields.insert("b".to_string(), "2".to_string());
    fields.insert("a".to_string(), "3".to_string());
    assert!(!fields.is_empty());
    assert_eq!(text(fields.get("a")), Some("3"));
    assert_eq!(text(fields.get("b")), Some("2"));
    assert_eq!(fields.get("c"), None);
    assert_eq!(
        fields.to_pairs(),
        vec![("a".to_string(), "3".to_string()), ("b".to_string(), "2".to_string())]
    );
    fields.clear();
    assert!(fields.is_empty());
    assert_eq!(fields.get("a"), None);
}

#[test]
fn field_maps_agree_where_both_have_a_value() {
    let mut wanted = FieldMap::new();
    wanted.insert("host".to_string(), "a1".to_string());
    wanted.insert("zone".to_string(), "eu".to_string());
    let mut same = FieldMap::new();
    same.insert("host".to_string(), "a1".to_string());
    same.insert("zone".to_string(), "eu".to_string());
    same.insert("extra".to_string(), "x".to_string());
    let mut partial = FieldMap::new();
    partial.insert("zone".to_string(), "eu".to_string());
    let mut differs = FieldMap::new();
    differs.insert("host".to_string(), "a1".to_string());
    differs.insert("zone".to_string(), "us".to_string());
    assert!(wanted.agrees_with(&same));
    assert!(wanted.agrees_with(&partial));
    assert!(wanted.agrees_with(&FieldMap::new()));
    assert!(FieldMap::new().agrees_with(&wanted));
    assert!(!wanted.agrees_with(&differs));
    assert!(!differs.agrees_with(&wanted));
}

#[test]
fn level_is_found_in_the_unicode_upper_case_form() {
    assert_eq!(LogLevel::infer("\u{131}nfo"), LogLevel::Info);
    assert_eq!(LogLevel::infer("\u{17f}omething"), LogLevel::Debug);
    assert_eq!(LogLevel::infer("ＥＲＲＯＲ"), LogLevel::Debug);
}

#[test]
fn record_message_loses_unicode_whitespace_around_it() {
    let record = LogRecord::from_line("t".to_string(), "\u{a0}\u{2003}warn: hot\u{3000}\u{85}");
    assert_eq!(text(record.get("message")), Some("warn: hot"));
    assert_eq!(text(record.get("level")), Some("WARN"));
    let inner = LogRecord::from_line("t".to_string(), "a \u{a0} b");
    assert_eq!(text(inner.get("message")), Some("a \u{a0} b"));
}

#[test]
fn whitespace_is_the_unicode_white_space_set() {
    let listed = |code: u32| {
        (0x0009..=0x000D).contains(&code)
            || code == 0x0020
            || code == 0x0085
            || code == 0x00A0
            || code == 0x1680
            || (0x2000..=0x200A).contains(&code)
            || code == 0x2028
            || code == 0x2029
            || code == 0x202F
            || code == 0x205F
            || code == 0x3000
    };
    let mut whitespace = 0;
    for code in 0..=0x10FFFF_u32 {
        if let Some(c) = char::from_u32(code) {
            let padded = format!("{}x{}", c, c);
            let record = LogRecord::from_line("t".to_string(), &padded);
            let trimmed = record.get("message").unwrap() == "x";
            assert_eq!(trimmed, listed(code), "code point {:#x}", code);
            if trimmed {
                whitespace += 1;
            }
        }
    }
    assert_eq!(whitespace, 25);
}

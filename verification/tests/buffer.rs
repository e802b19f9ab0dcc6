use cursive_flexi_logger_view::{format_record, Level, LogBuffer, LogLine, LogRecord};

fn numbered(n: usize) -> LogLine {
    format_record(&LogRecord {
        timestamp: String::new(),
        thread_name: None,
        level: Level::Debug,
        file: None,
        line: None,
        message: format!("line {}", n),
    })
}

fn message(buffer: &LogBuffer, index: usize) -> Option<String> {
    buffer.get(index).map(|l| l.spans[4].text.clone())
}

#[test]
fn new_buffer_is_empty() {
    let buffer = LogBuffer::new();
    assert_eq!(buffer.len(), 0);
    assert!(buffer.get(0).is_none());
}

#[test]
fn lines_are_kept_in_order() {
    let mut buffer = LogBuffer::new();
    for n in 0..3 {
        buffer.push_back(numbered(n));
    }
    assert_eq!(buffer.len(), 3);
    assert_eq!(message(&buffer, 0).as_deref(), Some("line 0"));
    assert_eq!(message(&buffer, 2).as_deref(), Some("line 2"));
    assert!(buffer.get(3).is_none());
}

#[test]
fn full_buffer_drops_oldest_lines() {
    let mut buffer = LogBuffer::new();
    for n in 0..LogBuffer::CAPACITY + 5 {
        buffer.push_back(numbered(n));
    }
    assert_eq!(buffer.len(), LogBuffer::CAPACITY);
    assert_eq!(message(&buffer, 0).as_deref(), Some("line 5"));
    let last = format!("line {}", LogBuffer::CAPACITY + 4);
    assert_eq!(message(&buffer, LogBuffer::CAPACITY - 1), Some(last));
    assert!(buffer.get(LogBuffer::CAPACITY).is_none());
}

#[test]
fn buffer_holds_exactly_capacity_when_filled() {
    let mut buffer = LogBuffer::new();
    for n in 0..LogBuffer::CAPACITY {
        buffer.push_back(numbered(n));
    }
    assert_eq!(buffer.len(), 2048);
    assert_eq!(message(&buffer, 0).as_deref(), Some("line 0"));
}

#[test]
fn log_record_appends_formatted_line() {
    let mut buffer = LogBuffer::new();
    let record = LogRecord {
        timestamp: "00:00:01.000".to_string(),
        thread_name: Some("worker".to_string()),
        level: Level::Warn,
        file: Some("lib.rs".to_string()),
        line: Some(7),
        message: "careful".to_string(),
    };
    buffer.log_record(&record);
    buffer.log_record(&record);
    assert_eq!(buffer.len(), 2);
    let texts: Vec<String> = buffer.get(1).unwrap().spans.iter().map(|s| s.text.clone()).collect();
    assert_eq!(texts, vec!["00:00:01.000", " [worker] ", "WARN", " <lib.rs:7> ", "careful"]);
}

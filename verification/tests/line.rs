use cursive_flexi_logger_view::line::push_decimal;
use cursive_flexi_logger_view::{format_record, level_color, BaseColor, Level, LogLine, LogRecord, SpanStyle};

fn record(level: Level, thread: Option<&str>, file: Option<&str>, line: Option<u32>, message: &str) -> LogRecord {
    LogRecord {
        timestamp: "12:34:56.789".to_string(),
        thread_name: thread.map(|t| t.to_string()),
        level,
        file: file.map(|f| f.to_string()),
        line,
        message: message.to_string(),
    }
}

fn texts(line: &LogLine) -> Vec<String> {
    line.spans.iter().map(|s| s.text.clone()).collect()
}

fn styles(line: &LogLine) -> Vec<SpanStyle> {
    line.spans.iter().map(|s| s.style).collect()
}

#[test]
fn level_colors_follow_severity() {
    assert_eq!(level_color(Level::Trace), BaseColor::Green);
    assert_eq!(level_color(Level::Debug), BaseColor::Cyan);
    assert_eq!(level_color(Level::Info), BaseColor::Blue);
    assert_eq!(level_color(Level::Warn), BaseColor::Yellow);
    assert_eq!(level_color(Level::Error), BaseColor::Red);
}

#[test]
fn record_with_all_parts() {
    let line = format_record(&record(Level::Info, Some("main"), Some("src/main.rs"), Some(42), "test log message"));
    assert_eq!(
        texts(&line),
        vec!["12:34:56.789", " [main] ", "INFO", " <src/main.rs:42> ", "test log message"]
    );
    let blue = SpanStyle::Dark(BaseColor::Blue);
    assert_eq!(styles(&line), vec![blue, SpanStyle::Plain, blue, SpanStyle::Plain, blue]);
}

#[test]
fn record_without_thread_file_or_line() {
    let line = format_record(&record(Level::Error, None, None, None, "boom"));
    assert_eq!(
        texts(&line),
        vec!["12:34:56.789", " [(unnamed)] ", "ERROR", " <(unnamed):0> ", "boom"]
    );
    let red = SpanStyle::Dark(BaseColor::Red);
    assert_eq!(styles(&line), vec![red, SpanStyle::Plain, red, SpanStyle::Plain, red]);
}

#[test]
fn level_names_are_upper_case() {
    let names: Vec<String> = [Level::Trace, Level::Debug, Level::Info, Level::Warn, Level::Error]
        .iter()
        .map(|l| format_record(&record(*l, None, None, None, "")).spans[2].text.clone())
        .collect();
    assert_eq!(names, vec!["TRACE", "DEBUG", "INFO", "WARN", "ERROR"]);
}

#[test]
fn decimal_numbers() {
    for (n, text) in [(0u32, "0"), (7, "7"), (10, "10"), (42, "42"), (1000, "1000"), (u32::MAX, "4294967295")] {
        let mut out = String::from("x");
        push_decimal(&mut out, n);
        assert_eq!(out, format!("x{}", text));
    }
}

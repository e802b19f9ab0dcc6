use cursive_flexi_logger_view::{FlexiLoggerView, LogBuffer, LogLine, Size, Span, SpanStyle};

fn plain(texts: &[&str]) -> LogLine {
    LogLine {
        spans: texts
            .iter()
            .map(|t| Span { text: t.to_string(), style: SpanStyle::Plain })
            .collect(),
    }
}

fn buffer_of(lines: &[&[&str]]) -> LogBuffer {
    let mut buffer = LogBuffer::new();
    for l in lines {
        buffer.push_back(plain(l));
    }
    buffer
}

#[test]
fn draw_shows_newest_lines_that_fit() {
    let buffer = buffer_of(&[&["a"], &["b"], &["c"], &["d"], &["e"]]);
    let view = FlexiLoggerView;
    assert_eq!(view.draw(&buffer, 3), vec![2, 3, 4]);
    assert_eq!(view.draw(&buffer, 5), vec![0, 1, 2, 3, 4]);
    assert_eq!(view.draw(&buffer, 10), vec![0, 1, 2, 3, 4]);
    assert_eq!(view.draw(&buffer, 1), vec![4]);
    assert_eq!(view.draw(&buffer, 0), Vec::<usize>::new());
}

#[test]
fn draw_empty_buffer() {
    let buffer = LogBuffer::new();
    assert_eq!(FlexiLoggerView.draw(&buffer, 4), Vec::<usize>::new());
}

#[test]
fn line_width_sums_spans() {
    assert_eq!(plain(&["abc", "de"]).width(), 5);
    assert_eq!(plain(&[]).width(), 0);
    // wide characters take two columns each
    assert_eq!(plain(&["日本"]).width(), 4);
    assert_eq!(plain(&["x", "日本"]).width(), 5);
}

#[test]
fn required_size_of_empty_buffer() {
    let buffer = LogBuffer::new();
    let mut view = FlexiLoggerView;
    assert_eq!(view.required_size(&buffer, Size { x: 0, y: 0 }), Size { x: 1, y: 0 });
    assert_eq!(view.required_size(&buffer, Size { x: 10, y: 3 }), Size { x: 10, y: 3 });
}

#[test]
fn required_size_follows_widest_line_and_line_count() {
    let buffer = buffer_of(&[&["abc"], &["abcdefg"], &["ab", "cd"]]);
    let mut view = FlexiLoggerView;
    assert_eq!(view.required_size(&buffer, Size { x: 0, y: 0 }), Size { x: 7, y: 3 });
    assert_eq!(view.required_size(&buffer, Size { x: 20, y: 2 }), Size { x: 20, y: 3 });
    assert_eq!(view.required_size(&buffer, Size { x: 5, y: 9 }), Size { x: 7, y: 9 });
}

#[test]
fn required_size_of_only_empty_lines_is_zero_wide() {
    let buffer = buffer_of(&[&[""], &[]]);
    let mut view = FlexiLoggerView;
    assert_eq!(view.required_size(&buffer, Size { x: 0, y: 0 }), Size { x: 0, y: 2 });
}

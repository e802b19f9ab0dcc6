use vstd::prelude::*;

verus! {

/// The severity of a log record.
#[derive(Clone, Copy, Debug, PartialEq, Eq, Structural)]
pub enum Level {
    Error,
    Warn,
    Info,
    Debug,
    Trace,
}

/// A dark terminal colour used to highlight a log line.
#[derive(Clone, Copy, Debug, PartialEq, Eq, Structural)]
pub enum BaseColor {
    Green,
    Cyan,
    Blue,
    Yellow,
    Red,
}

/// The style of one span of a log line: no style, or a dark colour.
#[derive(Clone, Copy, Debug, PartialEq, Eq, Structural)]
pub enum SpanStyle {
    Plain,
    Dark(BaseColor),
}

/// One run of text with a single style.
pub struct Span {
    pub text: String,
    pub style: SpanStyle,
}

/// A styled log line: its spans in order.
pub struct LogLine {
    pub spans: Vec<Span>,
}

/// The abstract value of a span: its characters and its style.
pub type SpanView = (Seq<char>, SpanStyle);

/// The abstract value of a log line: its spans in order.
pub type LineView = Seq<SpanView>;

impl View for Span {
    type V = SpanView;

    open spec fn view(&self) -> SpanView {
        (self.text@, self.style)
    }
}

impl View for LogLine {
    type V = LineView;

    open spec fn view(&self) -> LineView {
        self.spans@.map_values(|s: Span| s@)
    }
}

/// The colour in which a record of the given level is highlighted.
pub open spec fn spec_level_color(level: Level) -> BaseColor {
    match level {
        Level::Trace => BaseColor::Green,
        Level::Debug => BaseColor::Cyan,
        Level::Info => BaseColor::Blue,
        Level::Warn => BaseColor::Yellow,
        Level::Error => BaseColor::Red,
    }
}

/// The colour in which a record of the given level is highlighted.
pub fn level_color(level: Level) -> (color: BaseColor)
    ensures
        color == spec_level_color(level),
{
    match level {
        Level::Trace => BaseColor::Green,
        Level::Debug => BaseColor::Cyan,
        Level::Info => BaseColor::Blue,
        Level::Warn => BaseColor::Yellow,
        Level::Error => BaseColor::Red,
    }
}

/// The name under which a level is printed (`log::Level::as_str`, which its
/// `Display` prints too).
pub open spec fn level_name(level: Level) -> Seq<char> {
    match level {
        Level::Error => "ERROR"@,
        Level::Warn => "WARN"@,
        Level::Info => "INFO"@,
        Level::Debug => "DEBUG"@,
        Level::Trace => "TRACE"@,
    }
}

/// `log::Level::as_str`: the upper-case name of the level, which is also what
/// the level's `Display` prints.
#[verifier::external_body]
fn level_as_str(level: Level) -> (name: &'static str)
    ensures
        name@ == level_name(level),
{
    let level = match level {
        Level::Error => log::Level::Error,
        Level::Warn => log::Level::Warn,
        Level::Info => log::Level::Info,
        Level::Debug => log::Level::Debug,
        Level::Trace => log::Level::Trace,
    };
    level.as_str()
}

/// The text of one decimal digit.
pub open spec fn digit_text(d: nat) -> Seq<char> {
    if d == 0 {
        "0"@
    } else if d == 1 {
        "1"@
    } else if d == 2 {
        "2"@
    } else if d == 3 {
        "3"@
    } else if d == 4 {
        "4"@
    } else if d == 5 {
        "5"@
    } else if d == 6 {
        "6"@
    } else if d == 7 {
        "7"@
    } else if d == 8 {
        "8"@
    } else {
        "9"@
    }
}

/// The decimal representation of `n`, without leading zeros.
pub open spec fn decimal(n: nat) -> Seq<char>
    decreases n,
{
    if n < 10 {
        digit_text(n)
    } else {
        decimal(n / 10) + digit_text(n % 10)
    }
}

fn digit_str(d: u32) -> (s: &'static str)
    requires
        d < 10,
    ensures
        s@ == digit_text(d as nat),
{
    if d == 0 {
        "0"
    } else if d == 1 {
        "1"
    } else if d == 2 {
        "2"
    } else if d == 3 {
        "3"
    } else if d == 4 {
        "4"
    } else if d == 5 {
        "5"
    } else if d == 6 {
        "6"
    } else if d == 7 {
        "7"
    } else if d == 8 {
        "8"
    } else {
        "9"
    }
}

/// Appends the decimal representation of `n` to `out`.
pub fn push_decimal(out: &mut String, n: u32)
    ensures
        final(out)@ == old(out)@ + decimal(n as nat),
    decreases n,
{
    if n >= 10 {
        push_decimal(out, n / 10);
    }
    out.append(digit_str(n % 10));
    assert(out@ =~= old(out)@ + decimal(n as nat));
}

/// What a logger hands over for one record, as plain values: the time of
/// the record already formatted, the name of the thread that logged it, its
/// level, the source file and line it came from, and its formatted message.
pub struct LogRecord {
    pub timestamp: String,
    pub thread_name: Option<String>,
    pub level: Level,
    pub file: Option<String>,
    pub line: Option<u32>,
    pub message: String,
}

/// A name, or `(unnamed)` where there is none.
pub open spec fn name_or_unnamed(name: Option<String>) -> Seq<char> {
    match name {
        Some(n) => n@,
        None => "(unnamed)"@,
    }
}

/// A line number, or 0 where there is none.
pub open spec fn line_or_zero(line: Option<u32>) -> nat {
    match line {
        Some(n) => n as nat,
        None => 0,
    }
}

/// The styled line shown for a record: the timestamp, a bracketed thread
/// name, the level name, the source location in angle brackets and the
/// message. Timestamp, level name and message are in the level's dark
/// colour; the thread and location parts are plain.
pub open spec fn record_line(r: LogRecord) -> LineView {
    let c = SpanStyle::Dark(spec_level_color(r.level));
    seq![
        (r.timestamp@, c),
        (" ["@ + name_or_unnamed(r.thread_name) + "] "@, SpanStyle::Plain),
        (level_name(r.level), c),
        (" <"@ + name_or_unnamed(r.file) + ":"@ + decimal(line_or_zero(r.line)) + "> "@, SpanStyle::Plain),
        (r.message@, c),
    ]
}

fn append_name_or_unnamed(out: &mut String, name: &Option<String>)
    ensures
        final(out)@ == old(out)@ + name_or_unnamed(*name),
{
    match name {
        Some(n) => out.append(n.as_str()),
        None => out.append("(unnamed)"),
    }
}

/// Builds the styled line shown for a record.
pub fn format_record(record: &LogRecord) -> (line: LogLine)
    ensures
        line@ == record_line(*record),
{
    let color = SpanStyle::Dark(level_color(record.level));

    let mut spans: Vec<Span> = Vec::new();
    spans.push(Span { text: String::from_str(record.timestamp.as_str()), style: color });

    let mut thread = String::from_str(" [");
    append_name_or_unnamed(&mut thread, &record.thread_name);
    thread.append("] ");
    spans.push(Span { text: thread, style: SpanStyle::Plain });

    spans.push(Span { text: String::from_str(level_as_str(record.level)), style: color });

    let mut location = String::from_str(" <");
    append_name_or_unnamed(&mut location, &record.file);
    location.append(":");
    let number: u32 = match record.line {
        Some(n) => n,
        None => 0,
    };
    push_decimal(&mut location, number);
    location.append("> ");
    spans.push(Span { text: location, style: SpanStyle::Plain });

    spans.push(Span { text: String::from_str(record.message.as_str()), style: color });

    let line = LogLine { spans };
    assert(line@ =~= record_line(*record));
    line
}

/// A record's line has five spans: its timestamp, level name and message
/// are highlighted in the dark colour of its level (green for trace, cyan for
/// debug, blue for info, yellow for a warning, red for an error), and the
/// thread and location parts are plain.
pub proof fn lemma_record_line_colours(r: LogRecord)
    ensures
        record_line(r).len() == 5,
        record_line(r)[1].1 == SpanStyle::Plain,
        record_line(r)[3].1 == SpanStyle::Plain,
        record_line(r)[0].1 == record_line(r)[2].1,
        record_line(r)[0].1 == record_line(r)[4].1,
        r.level == Level::Trace ==> record_line(r)[0].1 == SpanStyle::Dark(BaseColor::Green),
        r.level == Level::Debug ==> record_line(r)[0].1 == SpanStyle::Dark(BaseColor::Cyan),
        r.level == Level::Info ==> record_line(r)[0].1 == SpanStyle::Dark(BaseColor::Blue),
        r.level == Level::Warn ==> record_line(r)[0].1 == SpanStyle::Dark(BaseColor::Yellow),
        r.level == Level::Error ==> record_line(r)[0].1 == SpanStyle::Dark(BaseColor::Red),
{
}

/// The colour of each level, as `level_color` gives it: green for trace, cyan
/// for debug, blue for info, yellow for a warning, red for an error.
pub proof fn lemma_level_color_table()
    ensures
        spec_level_color(Level::Trace) == BaseColor::Green,
        spec_level_color(Level::Debug) == BaseColor::Cyan,
        spec_level_color(Level::Info) == BaseColor::Blue,
        spec_level_color(Level::Warn) == BaseColor::Yellow,
        spec_level_color(Level::Error) == BaseColor::Red,
{
}

/// The number that a string of base-10 digits denotes, most significant
/// digit first.
pub open spec fn decimal_value(text: Seq<char>) -> int
    decreases text.len(),
{
    if text.len() == 0 {
        0
    } else {
        decimal_value(text.drop_last()) * 10 + (text.last() as int - '0' as int)
    }
}

/// Every character is one of the digits `0` to `9`.
pub open spec fn all_digits(text: Seq<char>) -> bool {
    forall|i: int| 0 <= i < text.len() ==> '0' <= #[trigger] text[i] <= '9'
}

/// The text of a digit is the single character whose code is that of `0`
/// plus the digit.
pub proof fn lemma_digit_text_is_char(d: nat)
    requires
        d < 10,
    ensures
        digit_text(d).len() == 1,
        digit_text(d)[0] as int == '0' as int + d,
{
    reveal_strlit("0");
    reveal_strlit("1");
    reveal_strlit("2");
    reveal_strlit("3");
    reveal_strlit("4");
    reveal_strlit("5");
    reveal_strlit("6");
    reveal_strlit("7");
    reveal_strlit("8");
    reveal_strlit("9");
}

/// The decimal text of a number is made of digits only, has no leading zero
/// (except the number 0 itself, written `0`), and, read back in base 10,
/// gives the number.
pub proof fn lemma_decimal_denotes(n: nat)
    ensures
        decimal(n).len() >= 1,
        all_digits(decimal(n)),
        decimal_value(decimal(n)) == n,
        n > 0 ==> decimal(n)[0] != '0',
        n == 0 ==> decimal(n) == seq!['0'],
    decreases n,
{
    if n < 10 {
        lemma_digit_text_is_char(n);
        let t = decimal(n);
        assert(t.drop_last() =~= Seq::<char>::empty());
        assert(decimal_value(t.drop_last()) == 0);
        if n == 0 {
            assert(t =~= seq!['0']);
        }
    } else {
        let q = n / 10;
        let d = n % 10;
        lemma_decimal_denotes(q);
        lemma_digit_text_is_char(d);
        let t = decimal(n);
        assert(t == decimal(q) + digit_text(d));
        assert(t.drop_last() =~= decimal(q));
        assert(t.last() == digit_text(d)[0]);
        assert(q * 10 + d == n);
        assert(t[0] == decimal(q)[0]);
        assert forall|i: int| 0 <= i < t.len() implies '0' <= #[trigger] t[i] <= '9' by {
            if i < decimal(q).len() {
                assert(t[i] == decimal(q)[i]);
            }
        }
    }
}

/// The text of a record's line, span by span: the timestamp as given; a
/// space, `[`, the thread name (or `(unnamed)`), `]` and a space; the level
/// name in capitals; a space, `<`, the file (or `(unnamed)`), `:`, the line
/// number in decimal (0 when there is none), `>` and a space; the message as
/// given.
pub proof fn lemma_record_line_text(r: LogRecord)
    ensures
        record_line(r)[0].0 == r.timestamp@,
        record_line(r)[1].0 == seq![' ', '['] + (match r.thread_name {
            Some(t) => t@,
            None => seq!['(', 'u', 'n', 'n', 'a', 'm', 'e', 'd', ')'],
        }) + seq![']', ' '],
        r.level == Level::Trace ==> record_line(r)[2].0 == seq!['T', 'R', 'A', 'C', 'E'],
        r.level == Level::Debug ==> record_line(r)[2].0 == seq!['D', 'E', 'B', 'U', 'G'],
        r.level == Level::Info ==> record_line(r)[2].0 == seq!['I', 'N', 'F', 'O'],
        r.level == Level::Warn ==> record_line(r)[2].0 == seq!['W', 'A', 'R', 'N'],
        r.level == Level::Error ==> record_line(r)[2].0 == seq!['E', 'R', 'R', 'O', 'R'],
        record_line(r)[3].0 == seq![' ', '<'] + (match r.file {
            Some(f) => f@,
            None => seq!['(', 'u', 'n', 'n', 'a', 'm', 'e', 'd', ')'],
        }) + seq![':'] + decimal(match r.line {
            Some(n) => n as nat,
            None => 0,
        }) + seq!['>', ' '],
        record_line(r)[4].0 == r.message@,
{
    reveal_strlit(" [");
    reveal_strlit("] ");
    reveal_strlit("(unnamed)");
    reveal_strlit(" <");
    reveal_strlit(":");
    reveal_strlit("> ");
    reveal_strlit("TRACE");
    reveal_strlit("DEBUG");
    reveal_strlit("INFO");
    reveal_strlit("WARN");
    reveal_strlit("ERROR");
    assert(record_line(r)[1].0 =~= seq![' ', '['] + (match r.thread_name {
        Some(t) => t@,
        None => seq!['(', 'u', 'n', 'n', 'a', 'm', 'e', 'd', ')'],
    }) + seq![']', ' ']);
    assert(record_line(r)[3].0 =~= seq![' ', '<'] + (match r.file {
        Some(f) => f@,
        None => seq!['(', 'u', 'n', 'n', 'a', 'm', 'e', 'd', ')'],
    }) + seq![':'] + decimal(match r.line {
        Some(n) => n as nat,
        None => 0,
    }) + seq!['>', ' ']);
    assert(level_name(r.level) =~= record_line(r)[2].0);
    if r.level == Level::Trace {
        assert(record_line(r)[2].0 =~= seq!['T', 'R', 'A', 'C', 'E']);
    } else if r.level == Level::Debug {
        assert(record_line(r)[2].0 =~= seq!['D', 'E', 'B', 'U', 'G']);
    } else if r.level == Level::Info {
        assert(record_line(r)[2].0 =~= seq!['I', 'N', 'F', 'O']);
    } else if r.level == Level::Warn {
        assert(record_line(r)[2].0 =~= seq!['W', 'A', 'R', 'N']);
    } else {
        assert(record_line(r)[2].0 =~= seq!['E', 'R', 'R', 'O', 'R']);
    }
}

} // verus!

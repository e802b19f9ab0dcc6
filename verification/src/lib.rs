//! A log view for terminal user interfaces. Each record that a logger
//! produces becomes a styled line (timestamp, thread, level, source location
//! and message, highlighted in a colour chosen by the level); the lines are
//! kept in a buffer that holds the newest 2048 of them; a view lays out the
//! newest lines that fit and asks for the size the lines need; and a debug
//! console can be shown, hidden or toggled on the screen.

pub mod buffer;
pub mod console;
pub mod line;
pub mod ring;
pub mod view;
pub mod width;

pub use buffer::LogBuffer;
pub use console::{
    hide_console_action, toggle_console_action, write_outcome, ConsoleAction, LayerPosition,
    SinkClosed, DEBUG_CONSOLE_TITLE, FLEXI_LOGGER_DEBUG_VIEW_NAME,
};
pub use line::{format_record, level_color, BaseColor, Level, LogLine, LogRecord, Span, SpanStyle};
pub use view::{FlexiLoggerView, Size};

use cursive_flexi_logger_view::{
    hide_console_action, toggle_console_action, write_outcome, ConsoleAction, LayerPosition,
    SinkClosed, DEBUG_CONSOLE_TITLE, FLEXI_LOGGER_DEBUG_VIEW_NAME,
};

#[test]
fn hide_removes_found_console() {
    let pos = LayerPosition::FromFront(0);
    assert_eq!(hide_console_action(Some(pos)), ConsoleAction::Remove(pos));
    assert_eq!(hide_console_action(None), ConsoleAction::Nothing);
}

#[test]
fn toggle_removes_or_shows() {
    let pos = LayerPosition::FromBack(2);
    assert_eq!(toggle_console_action(Some(pos)), ConsoleAction::Remove(pos));
    assert_eq!(toggle_console_action(None), ConsoleAction::Show);
}

#[test]
fn console_names() {
    assert_eq!(FLEXI_LOGGER_DEBUG_VIEW_NAME, "_flexi_debug_view");
    assert_eq!(DEBUG_CONSOLE_TITLE, "Debug console");
}

#[test]
fn write_outcome_reports_closed_sink() {
    assert_eq!(write_outcome(true), Ok(()));
    assert_eq!(write_outcome(false), Err(SinkClosed));
    assert_eq!(SinkClosed.message(), "cursive callback sink is closed!");
}

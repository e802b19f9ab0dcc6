use vstd::prelude::*;

verus! {

/// The name under which the debug console's log view is registered, so that
/// it can be found again on the screen.
pub const FLEXI_LOGGER_DEBUG_VIEW_NAME: &'static str = "_flexi_debug_view";

/// The title of the dialog that holds the debug console.
pub const DEBUG_CONSOLE_TITLE: &'static str = "Debug console";

/// Where a layer stands in the stack of layers on the screen.
#[derive(Clone, Copy, Debug, PartialEq, Eq, Structural)]
pub enum LayerPosition {
    /// Counted from the bottom of the stack.
    FromBack(usize),
    /// Counted from the top of the stack.
    FromFront(usize),
}

/// What to do to the screen.
#[derive(Clone, Copy, Debug, PartialEq, Eq, Structural)]
pub enum ConsoleAction {
    /// Add the debug console as a new layer on top.
    Show,
    /// Remove the layer at this position.
    Remove(LayerPosition),
    /// Leave the screen as it is.
    Nothing,
}

/// What hiding the debug console does, given where its layer was found.
pub open spec fn spec_hide_action(found: Option<LayerPosition>) -> ConsoleAction {
    match found {
        Some(pos) => ConsoleAction::Remove(pos),
        None => ConsoleAction::Nothing,
    }
}

/// What toggling the debug console does, given where its layer was found.
pub open spec fn spec_toggle_action(found: Option<LayerPosition>) -> ConsoleAction {
    match found {
        Some(pos) => ConsoleAction::Remove(pos),
        None => ConsoleAction::Show,
    }
}

/// Toggling a visible debug console hides it, exactly as hiding does;
/// toggling a console that is not there shows it, where hiding does nothing.
/// Hiding never shows the console.
pub proof fn lemma_toggle_agrees_with_hide(found: Option<LayerPosition>)
    ensures
        found is Some ==> spec_toggle_action(found) == spec_hide_action(found),
        found is None ==> spec_toggle_action(found) == ConsoleAction::Show,
        spec_hide_action(found) != ConsoleAction::Show,
{
}

/// What hiding the debug console does, given where its layer was found on
/// the screen, if anywhere: remove that layer, or do nothing.
pub fn hide_console_action(found: Option<LayerPosition>) -> (action: ConsoleAction)
    ensures
        action == spec_hide_action(found),
        found matches Some(pos) ==> action == ConsoleAction::Remove(pos),
        found is None ==> action == ConsoleAction::Nothing,
{
    match found {
        Some(pos) => ConsoleAction::Remove(pos),
        None => ConsoleAction::Nothing,
    }
}

/// What toggling the debug console does, given where its layer was found on
/// the screen, if anywhere: remove that layer, or show the console.
pub fn toggle_console_action(found: Option<LayerPosition>) -> (action: ConsoleAction)
    ensures
        action == spec_toggle_action(found),
        found matches Some(pos) ==> action == ConsoleAction::Remove(pos),
        found is None ==> action == ConsoleAction::Show,
{
    match found {
        Some(pos) => ConsoleAction::Remove(pos),
        None => ConsoleAction::Show,
    }
}

/// The screen could not be told that a new line arrived: the channel to it is
/// closed.
#[derive(Clone, Copy, Debug, PartialEq, Eq, Structural)]
pub struct SinkClosed;

impl SinkClosed {
    /// The message that reports the error.
    pub fn message(&self) -> (text: &'static str)
        ensures
            text@ == "cursive callback sink is closed!"@,
    {
        "cursive callback sink is closed!"
    }
}

/// The result of writing a record, given whether the screen was told of the
/// new line: success, or the error that the channel to the screen is closed.
pub fn write_outcome(notified: bool) -> (result: Result<(), SinkClosed>)
    ensures
        result is Ok <==> notified,
        !notified ==> result == Err::<(), SinkClosed>(SinkClosed),
{
    if notified {
        Ok(())
    } else {
        Err(SinkClosed)
    }
}

} // verus!

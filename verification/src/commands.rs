//! Translation of key events into commands.
//!
//! The unverified glue polls the terminal and hands each key press here as
//! plain values; the mapping to commands is verified. Only key presses are
//! dispatched; releases and repeats map to nothing.

use vstd::prelude::*;

verus! {

/// Everything the operator can ask for at the keyboard.
#[derive(Debug, Clone, Copy, PartialEq, Eq, Structural)]
pub enum Command {
    /// Quit the application (the quit protocol).
    Quit,
    /// Clear the console.
    ClearConsole,
    /// Pause or resume capture.
    TogglePauseCapture,
    /// Start a new log.
    StartNewLog,
    /// Save the active log to an operator-chosen path.
    SaveActiveLog,
    /// Pause or resume logging, independently of capture.
    TogglePauseLogging,
    /// Show the help text.
    Help,
}

/// The key map: `q` and Ctrl+C quit, `c` clears, `p` pauses capture, `n`
/// starts a new log, `s` saves, `l` pauses logging, `h` helps; anything else,
/// and any non-press event, does nothing.
pub open spec fn spec_parse_command(ch: char, ctrl: bool, is_press: bool) -> Option<Command> {
    if !is_press {
        None
    } else if ch == 'q' {
        Some(Command::Quit)
    } else if ch == 'c' && ctrl {
        Some(Command::Quit)
    } else if ch == 'c' {
        Some(Command::ClearConsole)
    } else if ch == 'p' {
        Some(Command::TogglePauseCapture)
    } else if ch == 'n' {
        Some(Command::StartNewLog)
    } else if ch == 's' {
        Some(Command::SaveActiveLog)
    } else if ch == 'l' {
        Some(Command::TogglePauseLogging)
    } else if ch == 'h' {
        Some(Command::Help)
    } else {
        None
    }
}

/// Maps one key event to its command, exactly per the key map.
pub fn parse_command(ch: char, ctrl: bool, is_press: bool) -> (r: Option<Command>)
    ensures
        r == spec_parse_command(ch, ctrl, is_press),
{
    if !is_press {
        None
    } else if ch == 'q' {
        Some(Command::Quit)
    } else if ch == 'c' && ctrl {
        Some(Command::Quit)
    } else if ch == 'c' {
        Some(Command::ClearConsole)
    } else if ch == 'p' {
        Some(Command::TogglePauseCapture)
    } else if ch == 'n' {
        Some(Command::StartNewLog)
    } else if ch == 's' {
        Some(Command::SaveActiveLog)
    } else if ch == 'l' {
        Some(Command::TogglePauseLogging)
    } else if ch == 'h' {
        Some(Command::Help)
    } else {
        None
    }
}

} // verus!

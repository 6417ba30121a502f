//! Key presses and the commands that they stand for.

use crate::selection::Command;
use vstd::prelude::*;

verus! {

/// How long one cycle of the interaction waits for a key event, in
/// milliseconds, before it draws the next frame.
pub const POLL_INTERVAL_MILLIS: u64 = 16;

/// A key, as far as the list tells keys apart.
#[derive(Clone, Copy, Debug, PartialEq, Eq, Structural)]
pub enum Key {
    /// A key that types a character.
    Char(char),
    /// The up arrow.
    Up,
    /// The down arrow.
    Down,
    /// Any other key.
    Other,
}

/// The command that a key event stands for. Only a press counts, not a
/// release or a repeat: `q` quits, `d` deletes, the arrows navigate, and
/// everything else is ignored.
pub open spec fn command_of(key: Key, pressed: bool) -> Command {
    if !pressed {
        Command::Ignored
    } else {
        match key {
            Key::Char(c) => if c == 'q' {
                Command::Quit
            } else if c == 'd' {
                Command::Delete
            } else {
                Command::Ignored
            },
            Key::Up => Command::NavigateUp,
            Key::Down => Command::NavigateDown,
            Key::Other => Command::Ignored,
        }
    }
}

/// Classifies a key event as a command.
pub fn command_for(key: Key, pressed: bool) -> (command: Command)
    ensures
        command == command_of(key, pressed),
{
    if !pressed {
        return Command::Ignored;
    }
    match key {
        Key::Char(c) => {
            if c == 'q' {
                Command::Quit
            } else if c == 'd' {
                Command::Delete
            } else {
                Command::Ignored
            }
        },
        Key::Up => Command::NavigateUp,
        Key::Down => Command::NavigateDown,
        Key::Other => Command::Ignored,
    }
}

} // verus!

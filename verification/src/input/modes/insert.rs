//! The key map of insert mode.
use vstd::prelude::*;
use crate::commands::Command;
use crate::input::Key;
use crate::models::application::modes::InsertMode;

verus! {

/// The command that a key stands for in insert mode: a character is to be
/// typed, the line to be broken, or the mode to be left.
pub open spec fn command_for(input: Key) -> Option<Command> {
    match input {
        Key::Char(_) => Some(Command::InsertCharacter),
        Key::Enter => Some(Command::InsertNewline),
        Key::Esc => Some(Command::SwitchToNormalMode),
        _ => None,
    }
}

/// Takes a key in insert mode. A character is kept in the mode for the
/// command that types it.
pub fn handle(mode: &mut InsertMode, input: Key) -> (r: Option<Command>)
    ensures
        r == command_for(input),
        final(mode).input == match input {
            Key::Char(c) => Some(c),
            _ => old(mode).input,
        },
{
    match input {
        Key::Char(c) => {
            mode.input = Some(c);
            Some(Command::InsertCharacter)
        },
        Key::Enter => Some(Command::InsertNewline),
        Key::Esc => Some(Command::SwitchToNormalMode),
        _ => None,
    }
}

} // verus!

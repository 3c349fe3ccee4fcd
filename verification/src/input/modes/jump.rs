//! The key map of jump mode.
use vstd::prelude::*;
use crate::commands::Command;
use crate::input::Key;
use crate::models::application::modes::JumpMode;

verus! {

/// The command that a key stands for in jump mode, given what was typed
/// before it: the character that completes a tag asks for the jump.
pub open spec fn command_for(typed: Seq<char>, input: Key) -> Option<Command> {
    match input {
        Key::Char(_) => if typed.len() + 1 >= 2 {
            Some(Command::JumpToTag)
        } else {
            None
        },
        Key::Esc => Some(Command::SwitchToNormalMode),
        _ => None,
    }
}

/// What is typed after a key: a character goes to the end.
pub open spec fn typed_after(typed: Seq<char>, input: Key) -> Seq<char> {
    match input {
        Key::Char(c) => typed.push(c),
        _ => typed,
    }
}

/// Takes a key in jump mode.
pub fn handle(mode: &mut JumpMode, input: Key) -> (r: Option<Command>)
    ensures
        r == command_for(old(mode).typed(), input),
        final(mode).typed() == typed_after(old(mode).typed(), input),
        final(mode).tagged() == old(mode).tagged(),
{
    match input {
        Key::Char(c) => {
            mode.type_character(c);
            if mode.typed_text().unicode_len() >= 2 {
                Some(Command::JumpToTag)
            } else {
                None
            }
        },
        Key::Esc => Some(Command::SwitchToNormalMode),
        _ => None,
    }
}

} // verus!

//! The key map of open mode.
use vstd::prelude::*;
use crate::commands::Command;
use crate::input::Key;
use crate::models::application::modes::OpenMode;

verus! {

/// `String::pop`: takes the last character away and hands it back, if
/// there is one.
pub assume_specification[ std::string::String::pop ](s: &mut std::string::String) -> (r: Option<
    char,
>)
    ensures
        match r {
            Some(c) => old(s)@.len() > 0 && c == old(s)@.last() && final(s)@ == old(
                s,
            )@.drop_last(),
            None => old(s)@.len() == 0 && final(s)@ == old(s)@,
        },
;

/// The command that a key stands for in open mode: typing and erasing
/// search anew, the arrow keys move the selection, and the enter key opens
/// what is selected.
pub open spec fn command_for(input: Key) -> Option<Command> {
    match input {
        Key::Char(_) => Some(Command::SearchPaths),
        Key::Backspace => Some(Command::SearchPaths),
        Key::Enter => Some(Command::OpenSelectedPath),
        Key::Down => Some(Command::SelectNextPath),
        Key::Up => Some(Command::SelectPreviousPath),
        Key::Esc => Some(Command::SwitchToNormalMode),
        _ => None,
    }
}

/// What is typed after a key: a character goes to the end, and the
/// backspace key takes the last one away.
pub open spec fn typed_after(typed: Seq<char>, input: Key) -> Seq<char> {
    match input {
        Key::Char(c) => typed.push(c),
        Key::Backspace => if typed.len() > 0 {
            typed.drop_last()
        } else {
            typed
        },
        _ => typed,
    }
}

/// Takes a key in open mode.
pub fn handle(mode: &mut OpenMode, input: Key) -> (r: Option<Command>)
    ensures
        r == command_for(input),
        final(mode).input@ == typed_after(old(mode).input@, input),
        final(mode).index == old(mode).index,
        final(mode).results == old(mode).results,
{
    match input {
        Key::Char(c) => {
            mode.input.push(c);
            Some(Command::SearchPaths)
        },
        Key::Backspace => {
            mode.input.pop();
            Some(Command::SearchPaths)
        },
        Key::Enter => Some(Command::OpenSelectedPath),
        Key::Down => Some(Command::SelectNextPath),
        Key::Up => Some(Command::SelectPreviousPath),
        Key::Esc => Some(Command::SwitchToNormalMode),
        _ => None,
    }
}

} // verus!

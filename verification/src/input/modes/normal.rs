//! The key map of normal mode.
use vstd::prelude::*;
use crate::commands::Command;
use crate::input::Key;

verus! {

/// The command that a key stands for in normal mode. A key that the mode
/// does not know stands for none.
pub open spec fn command_for(input: Key) -> Option<Command> {
    match input {
        Key::Char(c) => if c == 'j' {
            Some(Command::MoveDown)
        } else if c == 'k' {
            Some(Command::MoveUp)
        } else if c == 'h' {
            Some(Command::MoveLeft)
        } else if c == 'l' {
            Some(Command::MoveRight)
        } else if c == 'H' {
            Some(Command::MoveToStartOfLine)
        } else if c == 'L' {
            Some(Command::MoveToEndOfLine)
        } else if c == 'J' {
            Some(Command::MoveToLastLine)
        } else if c == 'K' {
            Some(Command::MoveToFirstLine)
        } else if c == '^' {
            Some(Command::MoveToFirstWordOfLine)
        } else if c == 'b' {
            Some(Command::MoveToStartOfPreviousToken)
        } else if c == 'w' {
            Some(Command::MoveToStartOfNextToken)
        } else if c == 'e' {
            Some(Command::MoveToEndOfCurrentToken)
        } else if c == 'a' {
            Some(Command::AppendToCurrentToken)
        } else if c == 'i' {
            Some(Command::SwitchToInsertMode)
        } else if c == 'I' {
            Some(Command::InsertAtFirstWordOfLine)
        } else if c == 'A' {
            Some(Command::InsertAtEndOfLine)
        } else if c == 'o' {
            Some(Command::InsertWithNewline)
        } else if c == 'O' {
            Some(Command::InsertWithNewlineAbove)
        } else if c == 'v' {
            Some(Command::SwitchToSelectMode)
        } else if c == 'V' {
            Some(Command::SwitchToSelectLineMode)
        } else if c == 'f' {
            Some(Command::SwitchToJumpMode)
        } else if c == 'g' {
            Some(Command::SwitchToLineJumpMode)
        } else if c == '/' {
            Some(Command::SwitchToSearchInsertMode)
        } else if c == ' ' {
            Some(Command::SwitchToOpenMode)
        } else if c == ',' {
            Some(Command::ScrollUp)
        } else if c == 'm' {
            Some(Command::ScrollDown)
        } else if c == '>' {
            Some(Command::IndentLine)
        } else if c == '<' {
            Some(Command::OutdentLine)
        } else if c == 'p' {
            Some(Command::Paste)
        } else if c == 'R' {
            Some(Command::CopyRemoteUrl)
        } else if c == 'q' {
            Some(Command::Exit)
        } else {
            None
        },
        _ => None,
    }
}

/// Resolves a key in normal mode.
pub fn handle(input: Key) -> (r: Option<Command>)
    ensures
        r == command_for(input),
{
    match input {
        Key::Char('j') => Some(Command::MoveDown),
        Key::Char('k') => Some(Command::MoveUp),
        Key::Char('h') => Some(Command::MoveLeft),
        Key::Char('l') => Some(Command::MoveRight),
        Key::Char('H') => Some(Command::MoveToStartOfLine),
        Key::Char('L') => Some(Command::MoveToEndOfLine),
        Key::Char('J') => Some(Command::MoveToLastLine),
        Key::Char('K') => Some(Command::MoveToFirstLine),
        Key::Char('^') => Some(Command::MoveToFirstWordOfLine),
        Key::Char('b') => Some(Command::MoveToStartOfPreviousToken),
        Key::Char('w') => Some(Command::MoveToStartOfNextToken),
        Key::Char('e') => Some(Command::MoveToEndOfCurrentToken),
        Key::Char('a') => Some(Command::AppendToCurrentToken),
        Key::Char('i') => Some(Command::SwitchToInsertMode),
        Key::Char('I') => Some(Command::InsertAtFirstWordOfLine),
        Key::Char('A') => Some(Command::InsertAtEndOfLine),
        Key::Char('o') => Some(Command::InsertWithNewline),
        Key::Char('O') => Some(Command::InsertWithNewlineAbove),
        Key::Char('v') => Some(Command::SwitchToSelectMode),
        Key::Char('V') => Some(Command::SwitchToSelectLineMode),
        Key::Char('f') => Some(Command::SwitchToJumpMode),
        Key::Char('g') => Some(Command::SwitchToLineJumpMode),
        Key::Char('/') => Some(Command::SwitchToSearchInsertMode),
        Key::Char(' ') => Some(Command::SwitchToOpenMode),
        Key::Char(',') => Some(Command::ScrollUp),
        Key::Char('m') => Some(Command::ScrollDown),
        Key::Char('>') => Some(Command::IndentLine),
        Key::Char('<') => Some(Command::OutdentLine),
        Key::Char('p') => Some(Command::Paste),
        Key::Char('R') => Some(Command::CopyRemoteUrl),
        Key::Char('q') => Some(Command::Exit),
        _ => None,
    }
}

} // verus!

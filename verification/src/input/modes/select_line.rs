//! The key map of select line mode.
use vstd::prelude::*;
use crate::commands::Command;
use crate::input::Key;

verus! {

/// The command that a key stands for in select line mode. A key that the
/// mode does not know stands for none.
pub open spec fn command_for(input: Key) -> Option<Command> {
    match input {
        Key::Char(c) => if c == 'j' {
            Some(Command::MoveDown)
        } else if c == 'k' {
            Some(Command::MoveUp)
        } else if c == 'h' {
            Some(Command::MoveLeft)
        } else if c == 'l' {
            Some(Command::MoveRight)
        } else if c == 'H' {
            Some(Command::MoveToStartOfLine)
        } else if c == 'L' {
            Some(Command::MoveToEndOfLine)
        } else if c == 'J' {
            Some(Command::MoveToLastLine)
        } else if c == 'K' {
            Some(Command::MoveToFirstLine)
        } else if c == 'b' {
            Some(Command::MoveToStartOfPreviousToken)
        } else if c == 'w' {
            Some(Command::MoveToStartOfNextToken)
        } else if c == 'e' {
            Some(Command::MoveToEndOfCurrentToken)
        } else if c == 'd' {
            Some(Command::CopyAndDeleteSelection)
        } else if c == 'c' {
            Some(Command::ChangeSelection)
        } else if c == 'y' {
            Some(Command::CopySelection)
        } else if c == ',' {
            Some(Command::ScrollUp)
        } else if c == 'm' {
            Some(Command::ScrollDown)
        } else if c == '>' {
            Some(Command::IndentLine)
        } else if c == '<' {
            Some(Command::OutdentLine)
        } else if c == 'f' {
            Some(Command::SwitchToJumpMode)
        } else if c == 'p' {
            Some(Command::Paste)
        } else if c == 'R' {
            Some(Command::CopyRemoteUrl)
        } else {
            None
        },
        Key::Esc => Some(Command::SwitchToNormalMode),
        _ => None,
    }
}

/// Resolves a key in select line mode.
pub fn handle(input: Key) -> (r: Option<Command>)
    ensures
        r == command_for(input),
{
    match input {
        Key::Char('j') => Some(Command::MoveDown),
        Key::Char('k') => Some(Command::MoveUp),
        Key::Char('h') => Some(Command::MoveLeft),
        Key::Char('l') => Some(Command::MoveRight),
        Key::Char('H') => Some(Command::MoveToStartOfLine),
        Key::Char('L') => Some(Command::MoveToEndOfLine),
        Key::Char('J') => Some(Command::MoveToLastLine),
        Key::Char('K') => Some(Command::MoveToFirstLine),
        Key::Char('b') => Some(Command::MoveToStartOfPreviousToken),
        Key::Char('w') => Some(Command::MoveToStartOfNextToken),
        Key::Char('e') => Some(Command::MoveToEndOfCurrentToken),
        Key::Char('d') => Some(Command::CopyAndDeleteSelection),
        Key::Char('c') => Some(Command::ChangeSelection),
        Key::Char('y') => Some(Command::CopySelection),
        Key::Char(',') => Some(Command::ScrollUp),
        Key::Char('m') => Some(Command::ScrollDown),
        Key::Char('>') => Some(Command::IndentLine),
        Key::Char('<') => Some(Command::OutdentLine),
        Key::Char('f') => Some(Command::SwitchToJumpMode),
        Key::Char('p') => Some(Command::Paste),
        Key::Char('R') => Some(Command::CopyRemoteUrl),
        Key::Esc => Some(Command::SwitchToNormalMode),
        _ => None,
    }
}

} // verus!

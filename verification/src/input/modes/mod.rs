//! One key map per mode.
pub mod insert;
pub mod jump;
pub mod normal;
pub mod open;
pub mod select;
pub mod select_line;

use vstd::prelude::*;
use crate::commands::Command;
use crate::input::Key;
use crate::models::application::Mode;

verus! {

/// The command that a key stands for in a mode. Line jump, symbol jump
/// and search insert mode know the escape key alone, and the exit mode
/// knows no key.
pub open spec fn command_for(mode: Mode, input: Key) -> Option<Command> {
    match mode {
        Mode::Normal => normal::command_for(input),
        Mode::Insert(_) => insert::command_for(input),
        Mode::Open(_) => open::command_for(input),
        Mode::Select(_) => select_line::command_for(input),
        Mode::SelectLine(_) => select_line::command_for(input),
        Mode::Jump(jump) => jump::command_for(jump.typed(), input),
        Mode::LineJump(_) | Mode::SymbolJump(_) | Mode::SearchInsert(_) => if input == Key::Esc {
            Some(Command::SwitchToNormalMode)
        } else {
            None
        },
        Mode::Exit => None,
    }
}

/// The mode after it took a key, for all modes but open mode and jump
/// mode: insert mode keeps a typed character, and every other mode stays
/// as it is.
pub open spec fn mode_after(mode: Mode, input: Key) -> Mode {
    match mode {
        Mode::Insert(insert) => Mode::Insert(
            crate::models::application::modes::InsertMode {
                input: match input {
                    Key::Char(c) => Some(c),
                    _ => insert.input,
                },
            },
        ),
        _ => mode,
    }
}

/// Whether a mode is what another becomes as it takes a key: open mode
/// edits its search input, jump mode collects the characters of a tag,
/// insert mode keeps a typed character, and every other mode stays as it
/// is.
pub open spec fn took(before: Mode, after: Mode, input: Key) -> bool {
    match before {
        Mode::Open(open) => after matches Mode::Open(edited) && edited.input@
            == open::typed_after(open.input@, input) && edited.index == open.index
            && edited.results == open.results,
        Mode::Jump(jump) => after matches Mode::Jump(typed) && typed.typed() == jump::typed_after(
            jump.typed(),
            input,
        ) && typed.tagged() == jump.tagged(),
        _ => after == mode_after(before, input),
    }
}

/// Whether a mode is one that only reads the buffer's text: the jump
/// modes, open mode, search insert mode, and the exit mode.
pub open spec fn reads_only(mode: Mode) -> bool {
    ||| mode is Jump
    ||| mode is LineJump
    ||| mode is SymbolJump
    ||| mode is Open
    ||| mode is SearchInsert
    ||| mode is Exit
}

/// In a mode that only reads the buffer's text, no key stands for a command
/// that changes the text: such a command may move the cursor and close an
/// open group of edits, and leaves the text as it is.
pub proof fn lemma_modes_that_only_read(
    app: crate::models::application::Application,
    key: Key,
    at_end: bool,
)
    requires
        reads_only(app.mode),
    ensures
        command_for(app.mode, key) matches Some(command) ==> match crate::commands::scene(
            app,
        ).buffer {
            Some(state) => crate::commands::scene_after(command, app, at_end).buffer matches Some(
                after,
            ) && after.text == state.text,
            None => crate::commands::scene_after(command, app, at_end).buffer is None,
        },
{
}

/// Resolves a key through the key map of the active mode.
pub fn handle(mode: &mut Mode, input: Key) -> (r: Option<Command>)
    ensures
        r == command_for(*old(mode), input),
        took(*old(mode), *final(mode), input),
{
    match mode {
        Mode::Normal => normal::handle(input),
        Mode::Insert(insert) => insert::handle(insert, input),
        Mode::Open(open) => open::handle(open, input),
        Mode::Select(_) => select::handle(input),
        Mode::SelectLine(_) => select_line::handle(input),
        Mode::Jump(jump) => jump::handle(jump, input),
        Mode::LineJump(_) | Mode::SymbolJump(_) | Mode::SearchInsert(_) => {
            match input {
                Key::Esc => Some(Command::SwitchToNormalMode),
                _ => None,
            }
        },
        Mode::Exit => None,
    }
}

} // verus!

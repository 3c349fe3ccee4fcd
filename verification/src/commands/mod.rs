//! The catalog of named operations that key maps refer to.
//!
//! What a command does is stated over a `Scene`: the state of the current
//! buffer together with the scroll offsets of the view.
pub mod application;
pub mod buffer;
pub mod cursor;
pub mod git;
pub mod jump;
pub mod open_mode;
pub mod selection;
pub mod view;

use vstd::prelude::*;
use crate::commands::buffer::{grouped, ungrouped, with_newline};
use crate::commands::cursor::{
    at_first_word,
    at_start_of_line,
    at_token_boundary,
    down,
    left,
    right,
};
use crate::helpers::scroll_key;
use crate::helpers::token::Direction;
use crate::models::application::{Application, Mode};
use crate::storage::{
    BufferState,
    after_move_to_end_of_line,
    after_move_to_first_line,
    after_move_to_last_line,
    after_move_up,
    current_state,
};
use crate::view::offsets_showing;

verus! {

/// The operations that key maps name.
#[derive(Clone, Copy, Debug, PartialEq, Eq, Structural)]
pub enum Command {
    MoveUp,
    MoveDown,
    MoveLeft,
    MoveRight,
    MoveToStartOfLine,
    MoveToEndOfLine,
    MoveToFirstLine,
    MoveToLastLine,
    MoveToFirstWordOfLine,
    MoveToStartOfPreviousToken,
    MoveToStartOfNextToken,
    MoveToEndOfCurrentToken,
    AppendToCurrentToken,
    InsertAtEndOfLine,
    InsertAtFirstWordOfLine,
    InsertWithNewline,
    InsertWithNewlineAbove,
    ScrollUp,
    ScrollDown,
    ScrollToCursor,
    SwitchToNormalMode,
    SwitchToInsertMode,
    SwitchToJumpMode,
    SwitchToLineJumpMode,
    SwitchToSelectMode,
    SwitchToSelectLineMode,
    SwitchToSearchInsertMode,
    SwitchToOpenMode,
    Exit,
    OpenSelectedPath,
    SearchPaths,
    SelectNextPath,
    SelectPreviousPath,
    InsertCharacter,
    InsertNewline,
    JumpToTag,
    CopySelection,
    CopyAndDeleteSelection,
    ChangeSelection,
    Paste,
    IndentLine,
    OutdentLine,
    CopyRemoteUrl,
}

/// What is left for the caller to do after a command has run.
pub enum Outcome {
    /// The command has run to its end.
    Done,
    /// The command has run, and the file at this path is to be opened as
    /// a buffer.
    OpenPath(String),
    /// The command needs what only the caller can read, the paths below
    /// the workspace or the remote of the repository: the caller reads it
    /// and hands it to `application::switch_to_open_mode` or to
    /// `git::copy_remote_url`.
    Deferred(Command),
}

impl Command {
    /// Whether carrying out the command is the caller's part.
    pub open spec fn is_deferred(self) -> bool {
        match self {
            Command::SwitchToOpenMode | Command::CopyRemoteUrl => true,
            _ => false,
        }
    }
}

/// What commands read and change of the application, besides its mode.
pub struct Scene {
    /// The state of the current buffer, if there is one.
    pub buffer: Option<BufferState>,
    /// The scroll offsets of the view, by buffer key.
    pub offsets: Map<usize, usize>,
    /// The rows of the terminal that show buffer content.
    pub rows: usize,
}

/// The scene of an application.
pub open spec fn scene(app: Application) -> Scene {
    Scene {
        buffer: current_state(app.workspace),
        offsets: app.view.offsets(),
        rows: app.view.region_height(),
    }
}

/// Whether two applications agree in all that no cursor or view command
/// touches: the search query, the clipboard, the repository, and the theme
/// and size of the view.
pub open spec fn same_surroundings(before: Application, after: Application) -> bool {
    &&& after.search_query == before.search_query
    &&& after.clipboard == before.clipboard
    &&& after.repository == before.repository
    &&& after.view.current_theme() == before.view.current_theme()
    &&& after.view.width() == before.view.width()
    &&& after.view.height() == before.view.height()
}

/// Whether a command has kept the cursor within the text: if the cursor of
/// the current buffer was at a position that the text had, it still is at
/// one that the text has.
pub open spec fn cursor_kept_in_bounds(before: Application, after: Application) -> bool {
    scene(before).cursor_in_bounds() ==> scene(after).cursor_in_bounds()
}

impl Scene {
    /// Whether the cursor of the current buffer, if there is one, is at a
    /// position that its text has.
    pub open spec fn cursor_in_bounds(self) -> bool {
        match self.buffer {
            Some(state) => state.cursor_in_bounds(),
            None => true,
        }
    }

    /// The scene after the viewport was resynchronized: the window of the
    /// current buffer shows the cursor's line.
    pub open spec fn synced(self) -> Scene {
        match self.buffer {
            Some(state) => Scene {
                offsets: offsets_showing(
                    self.offsets,
                    scroll_key(state.id),
                    self.rows,
                    state.cursor.line,
                ),
                ..self
            },
            None => self,
        }
    }

    /// The scene with the current buffer, if there is one, in the state
    /// that `change` makes of its state.
    pub open spec fn with_buffer(self, change: spec_fn(BufferState) -> BufferState) -> Scene {
        match self.buffer {
            Some(state) => Scene { buffer: Some(change(state)), ..self },
            None => self,
        }
    }
}

/// Resynchronizing the viewport a second time changes nothing.
pub proof fn lemma_synced_idempotent(scene: Scene)
    ensures
        scene.synced().synced() == scene.synced(),
{
    if let Some(state) = scene.buffer {
        crate::view::lemma_offsets_showing_idempotent(
            scene.offsets,
            scroll_key(state.id),
            scene.rows,
            state.cursor.line,
        );
    }
}

/// The scene that a command leaves. A command that puts text into the
/// buffer can lead to one of two scenes: `at_end` tells whether the storage
/// had to grow for the text, which moves its gap before the cursor's
/// position is looked up.
pub open spec fn scene_after(command: Command, before: Application, at_end: bool) -> Scene {
    let start = scene(before);
    match command {
        Command::MoveUp => start.with_buffer(|s: BufferState| after_move_up(s)).synced(),
        Command::MoveDown => start.with_buffer(|s: BufferState| down(s)).synced(),
        Command::MoveLeft => start.with_buffer(|s: BufferState| left(s)).synced(),
        Command::MoveRight => start.with_buffer(|s: BufferState| right(s)).synced(),
        Command::MoveToStartOfLine => start.with_buffer(
            |s: BufferState| at_start_of_line(s),
        ).synced(),
        Command::MoveToEndOfLine => start.with_buffer(
            |s: BufferState| after_move_to_end_of_line(s),
        ).synced(),
        Command::MoveToFirstLine => start.with_buffer(
            |s: BufferState| after_move_to_first_line(s),
        ).synced(),
        Command::MoveToLastLine => start.with_buffer(
            |s: BufferState| after_move_to_last_line(s),
        ).synced(),
        Command::MoveToFirstWordOfLine => start.with_buffer(
            |s: BufferState| at_first_word(s),
        ).synced(),
        Command::MoveToStartOfPreviousToken => start.with_buffer(
            |s: BufferState| at_token_boundary(s, false, Direction::Backward),
        ).synced(),
        Command::MoveToStartOfNextToken => start.with_buffer(
            |s: BufferState| at_token_boundary(s, false, Direction::Forward),
        ).synced(),
        Command::MoveToEndOfCurrentToken => start.with_buffer(
            |s: BufferState| at_token_boundary(s, true, Direction::Forward),
        ).synced(),
        Command::AppendToCurrentToken => start.with_buffer(
            |s: BufferState| at_token_boundary(s, true, Direction::Forward),
        ).with_buffer(|s: BufferState| grouped(s)).synced(),
        Command::InsertAtEndOfLine => start.with_buffer(
            |s: BufferState| after_move_to_end_of_line(s),
        ).synced().with_buffer(|s: BufferState| grouped(s)).synced().synced(),
        Command::InsertAtFirstWordOfLine => start.with_buffer(
            |s: BufferState| at_first_word(s),
        ).synced().with_buffer(|s: BufferState| grouped(s)).synced().synced(),
        Command::InsertWithNewline => start.with_buffer(
            |s: BufferState| after_move_to_end_of_line(s),
        ).synced().with_buffer(|s: BufferState| grouped(s)).with_buffer(
            |s: BufferState| with_newline(s, at_end),
        ).with_buffer(|s: BufferState| grouped(s)).synced().synced(),
        Command::InsertWithNewlineAbove => start.with_buffer(
            |s: BufferState| at_start_of_line(s),
        ).synced().with_buffer(|s: BufferState| grouped(s)).with_buffer(
            |s: BufferState| with_newline(s, at_end),
        ).with_buffer(|s: BufferState| after_move_up(s)).synced().with_buffer(
            |s: BufferState| grouped(s),
        ).synced().synced(),
        Command::ScrollUp => start.stepped_up(),
        Command::ScrollDown => start.stepped_down(),
        Command::ScrollToCursor => start.synced(),
        Command::SwitchToInsertMode => start.with_buffer(|s: BufferState| grouped(s)).synced(),
        Command::SwitchToNormalMode | Command::OpenSelectedPath | Command::CopySelection => {
            start.with_buffer(|s: BufferState| ungrouped(s))
        },
        Command::InsertCharacter => match crate::commands::buffer::held_character(before.mode) {
            Some(character) => start.with_buffer(
                |s: BufferState| crate::commands::buffer::with_character(s, character, at_end),
            ).synced(),
            None => start.synced(),
        },
        Command::InsertNewline => start.with_buffer(
            |s: BufferState| with_newline(s, at_end),
        ).synced(),
        Command::JumpToTag => start.with_buffer(
            |s: BufferState|
                crate::commands::jump::at_target(
                    s,
                    crate::commands::jump::typed_target(before.mode),
                ),
        ).with_buffer(|s: BufferState| ungrouped(s)).synced(),
        Command::CopyAndDeleteSelection => start.with_buffer(
            |s: BufferState| crate::commands::selection::without_selection(before.mode, s),
        ).with_buffer(|s: BufferState| ungrouped(s)),
        Command::ChangeSelection => start.with_buffer(
            |s: BufferState| crate::commands::selection::without_selection(before.mode, s),
        ).with_buffer(|s: BufferState| grouped(s)).synced(),
        Command::Paste => start.with_buffer(
            |s: BufferState|
                crate::commands::buffer::pasted(
                    s,
                    before.clipboard.held().kind(),
                    before.clipboard.held().text(),
                    at_end,
                ),
        ),
        Command::IndentLine => start.with_buffer(
            |s: BufferState| crate::commands::buffer::indented(s, at_end),
        ),
        Command::OutdentLine => start.with_buffer(
            |s: BufferState| crate::commands::buffer::outdented(s),
        ),
        Command::SwitchToJumpMode
        | Command::SwitchToLineJumpMode
        | Command::SwitchToSelectMode
        | Command::SwitchToSelectLineMode
        | Command::SwitchToSearchInsertMode
        | Command::SwitchToOpenMode
        | Command::Exit
        | Command::SearchPaths
        | Command::SelectNextPath
        | Command::SelectPreviousPath
        | Command::CopyRemoteUrl => start,
    }
}

/// Whether a mode is the one that a command leaves.
pub open spec fn mode_follows(command: Command, before: Application, after: Mode) -> bool {
    match command {
        Command::SwitchToNormalMode
        | Command::OpenSelectedPath
        | Command::JumpToTag
        | Command::CopySelection
        | Command::CopyAndDeleteSelection => after is Normal,
        Command::SwitchToInsertMode
        | Command::AppendToCurrentToken
        | Command::InsertAtEndOfLine
        | Command::InsertAtFirstWordOfLine
        | Command::InsertWithNewline
        | Command::InsertWithNewlineAbove
        | Command::ChangeSelection => after == crate::commands::cursor::insert_mode_if_buffer(
            before,
        ),
        Command::SwitchToJumpMode => after matches Mode::Jump(jump) && jump.typed().len() == 0
            && jump.tagged().len() == 0,
        Command::SwitchToLineJumpMode => after matches Mode::LineJump(jump) && jump.input@.len()
            == 0,
        Command::SwitchToSearchInsertMode => after matches Mode::SearchInsert(search)
            && search.input@.len() == 0,
        Command::SwitchToSelectMode => after == match current_state(before.workspace) {
            Some(state) => Mode::Select(
                crate::models::application::modes::SelectMode { anchor: state.cursor },
            ),
            None => before.mode,
        },
        Command::SwitchToSelectLineMode => after == match current_state(before.workspace) {
            Some(state) => Mode::SelectLine(
                crate::models::application::modes::SelectLineMode { anchor: state.cursor.line },
            ),
            None => before.mode,
        },
        Command::Exit => after is Exit,
        Command::SearchPaths => crate::commands::open_mode::searched(before.mode, after),
        Command::SelectNextPath => crate::commands::open_mode::reselected(
            before.mode,
            after,
            true,
        ),
        Command::SelectPreviousPath => crate::commands::open_mode::reselected(
            before.mode,
            after,
            false,
        ),
        _ => after == before.mode,
    }
}

/// Whether a command may change what the clipboard holds.
pub open spec fn writes_clipboard(command: Command) -> bool {
    match command {
        Command::CopySelection | Command::CopyAndDeleteSelection | Command::ChangeSelection => true,
        _ => false,
    }
}

/// Whether an outcome is what a command leaves for the caller: the
/// command itself where carrying it out is the caller's part, the path
/// that open mode had selected, or nothing.
pub open spec fn leaves(command: Command, before: Application, outcome: Outcome) -> bool {
    if command.is_deferred() {
        outcome == Outcome::Deferred(command)
    } else if command == Command::OpenSelectedPath {
        match outcome {
            Outcome::OpenPath(path) => crate::commands::open_mode::selected_path(before.mode)
                == Some(path@),
            Outcome::Done => crate::commands::open_mode::selected_path(before.mode) is None,
            Outcome::Deferred(_) => false,
        }
    } else {
        outcome is Done
    }
}

/// Whether an application and an outcome are what a command makes of an
/// application.
pub open spec fn ran(
    command: Command,
    before: Application,
    after: Application,
    outcome: Outcome,
) -> bool {
    &&& after.search_query == before.search_query
    &&& after.repository == before.repository
    &&& after.view.current_theme() == before.view.current_theme()
    &&& after.view.width() == before.view.width()
    &&& after.view.height() == before.view.height()
    &&& if writes_clipboard(command) {
        crate::commands::selection::copied(before, after)
    } else {
        after.clipboard == before.clipboard
    }
    &&& (scene(after) == scene_after(command, before, false) || scene(after) == scene_after(
        command,
        before,
        true,
    ))
    &&& mode_follows(command, before, after.mode)
    &&& leaves(command, before, outcome)
    &&& cursor_kept_in_bounds(before, after)
    &&& command.is_deferred() ==> after == before
}

/// The application stops only when it is told to: no command but the one
/// that exits leads to the exit mode.
pub proof fn lemma_only_exit_exits(
    command: Command,
    before: Application,
    after: Application,
    outcome: Outcome,
)
    requires
        ran(command, before, after, outcome),
        after.mode is Exit,
    ensures
        command == Command::Exit || before.mode is Exit,
{
}

/// Carries out a command on the application. Commands that are the
/// caller's part come back untouched, and so does the path that open mode
/// selected.
pub fn run(command: Command, app: &mut Application) -> (r: Outcome)
    ensures
        ran(command, *old(app), *final(app), r),
{
    match command {
        Command::MoveUp => crate::commands::cursor::move_up(app),
        Command::MoveDown => crate::commands::cursor::move_down(app),
        Command::MoveLeft => crate::commands::cursor::move_left(app),
        Command::MoveRight => crate::commands::cursor::move_right(app),
        Command::MoveToStartOfLine => crate::commands::cursor::move_to_start_of_line(app),
        Command::MoveToEndOfLine => crate::commands::cursor::move_to_end_of_line(app),
        Command::MoveToFirstLine => crate::commands::cursor::move_to_first_line(app),
        Command::MoveToLastLine => crate::commands::cursor::move_to_last_line(app),
        Command::MoveToFirstWordOfLine => crate::commands::cursor::move_to_first_word_of_line(app),
        Command::MoveToStartOfPreviousToken => {
            crate::commands::cursor::move_to_start_of_previous_token(app)
        },
        Command::MoveToStartOfNextToken => {
            crate::commands::cursor::move_to_start_of_next_token(app)
        },
        Command::MoveToEndOfCurrentToken => {
            crate::commands::cursor::move_to_end_of_current_token(app)
        },
        Command::AppendToCurrentToken => crate::commands::cursor::append_to_current_token(app),
        Command::InsertAtEndOfLine => crate::commands::cursor::insert_at_end_of_line(app),
        Command::InsertAtFirstWordOfLine => {
            crate::commands::cursor::insert_at_first_word_of_line(app)
        },
        Command::InsertWithNewline => crate::commands::cursor::insert_with_newline(app),
        Command::InsertWithNewlineAbove => crate::commands::cursor::insert_with_newline_above(app),
        Command::ScrollUp => crate::commands::view::scroll_up(app),
        Command::ScrollDown => crate::commands::view::scroll_down(app),
        Command::ScrollToCursor => crate::commands::view::scroll_to_cursor(app),
        Command::SwitchToNormalMode => crate::commands::application::switch_to_normal_mode(app),
        Command::SwitchToInsertMode => crate::commands::application::switch_to_insert_mode(app),
        Command::SwitchToJumpMode => crate::commands::application::switch_to_jump_mode(app),
        Command::SwitchToLineJumpMode => {
            crate::commands::application::switch_to_line_jump_mode(app)
        },
        Command::SwitchToSelectMode => crate::commands::application::switch_to_select_mode(app),
        Command::SwitchToSelectLineMode => {
            crate::commands::application::switch_to_select_line_mode(app)
        },
        Command::SwitchToSearchInsertMode => {
            crate::commands::application::switch_to_search_insert_mode(app)
        },
        Command::Exit => crate::commands::application::exit(app),
        Command::OpenSelectedPath => {
            return match crate::commands::open_mode::open(app) {
                Some(path) => Outcome::OpenPath(path),
                None => Outcome::Done,
            };
        },
        Command::SearchPaths => crate::commands::open_mode::search(app),
        Command::SelectNextPath => crate::commands::open_mode::select_next_path(app),
        Command::SelectPreviousPath => crate::commands::open_mode::select_previous_path(app),
        Command::JumpToTag => crate::commands::jump::jump_to_tag(app),
        Command::InsertCharacter => crate::commands::buffer::insert_char(app),
        Command::InsertNewline => {
            crate::commands::buffer::insert_newline(app);
            crate::commands::view::scroll_to_cursor(app);
        },
        Command::CopySelection => crate::commands::selection::copy(app),
        Command::CopyAndDeleteSelection => crate::commands::selection::copy_and_delete(app),
        Command::ChangeSelection => crate::commands::selection::change(app),
        Command::Paste => crate::commands::buffer::paste(app),
        Command::IndentLine => crate::commands::buffer::indent_line(app),
        Command::OutdentLine => crate::commands::buffer::outdent_line(app),
        Command::SwitchToOpenMode | Command::CopyRemoteUrl => {
            return Outcome::Deferred(command);
        },
    }
    Outcome::Done
}

} // verus!

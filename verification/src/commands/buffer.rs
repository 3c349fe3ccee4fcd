//! Commands on the text of the current buffer.
use vstd::prelude::*;
use crate::buffer::position::Position;
use crate::buffer::range::Range;
use crate::commands::{Scene, cursor_kept_in_bounds, same_surroundings, scene};
use crate::commands::cursor::down;
use crate::models::application::{Application, ClipboardContent, Mode};
use crate::models::application::clipboard::ContentKind;
use crate::storage::{
    BufferState,
    after_delete,
    after_insert,
    after_move_to_end_of_line,
    buffer_data,
    buffer_delete_range,
    buffer_insert,
    current_buffer,
    cursor_move_down,
    cursor_move_right,
    cursor_move_to,
    cursor_move_to_end_of_line,
    cursor_move_to_start_of_line,
    cursor_position,
    end_operation_group,
    start_operation_group,
};
use crate::text::{chars_of, line_bounds, nth_line};

verus! {

/// The state of a buffer in which edits are collected into one undoable
/// group.
pub open spec fn grouped(state: BufferState) -> BufferState {
    BufferState { grouping: true, ..state }
}

/// The state of a buffer in which edits are not collected.
pub open spec fn ungrouped(state: BufferState) -> BufferState {
    BufferState { grouping: false, ..state }
}

/// The state after the cursor was brought back into the text, as every
/// edit ends: a cursor at a position that the text has stays there; one
/// that the edit has left without a position goes to the start of its
/// line, or else to the start of the text.
pub open spec fn settled(state: BufferState) -> BufferState {
    let home = Position { line: state.cursor.line, offset: 0 };
    if state.cursor_in_bounds() {
        state.moved_to(state.cursor)
    } else if state.has(home) {
        state.moved_to(home)
    } else {
        state.moved_to(Position { line: 0, offset: 0 })
    }
}

/// Whether a scene is the one, of the two that an edit can lead to, that
/// came about: `made(false)` where the data found room in the gap of the
/// storage, `made(true)` where the storage had to grow.
pub open spec fn either(scene: Scene, made: spec_fn(bool) -> Scene) -> bool {
    scene == made(false) || scene == made(true)
}

/// The state after a line break went in at the cursor and the cursor went
/// to the start of the line below.
pub open spec fn with_newline(state: BufferState, at_end: bool) -> BufferState {
    let lower = down(after_insert(state, seq!['\n'], at_end));
    settled(lower.moved_to(Position { line: lower.cursor.line, offset: 0 }))
}

/// The state after a character went in at the cursor and the cursor
/// went one offset to the right.
pub open spec fn with_character(
    state: BufferState,
    character: char,
    at_end: bool,
) -> BufferState {
    let typed = after_insert(state, seq![character], at_end);
    settled(
        if typed.cursor.offset < usize::MAX {
            typed.moved_to(
                Position { line: typed.cursor.line, offset: (typed.cursor.offset + 1) as usize },
            )
        } else {
            typed
        },
    )
}

/// The character that a mode holds for typing: the one that insert mode
/// took last.
pub open spec fn held_character(mode: Mode) -> Option<char> {
    match mode {
        Mode::Insert(insert) => insert.input,
        _ => None,
    }
}

/// The state after clipboard content went into the buffer. Text from
/// within a line goes in at the cursor. Whole lines go in at the start of
/// the line below the cursor; on the last line they go in behind a line
/// break at its end, and the cursor goes back to where it was.
pub open spec fn pasted(
    state: BufferState,
    kind: ContentKind,
    content: Seq<char>,
    at_end: bool,
) -> BufferState {
    match kind {
        ContentKind::Inline => settled(after_insert(state, content, at_end)),
        ContentKind::Block => {
            let below = Position { line: (state.cursor.line + 1) as usize, offset: 0 };
            if state.cursor.line < usize::MAX && state.has(below) {
                settled(after_insert(state.moved_to(below), content, at_end))
            } else {
                settled(
                    after_insert(
                        after_move_to_end_of_line(state),
                        seq!['\n'] + content,
                        at_end,
                    ).moved_to(state.cursor),
                )
            }
        },
        ContentKind::Empty => state,
    }
}

/// The width of one step of indentation.
pub const TAB_WIDTH: usize = 2;

/// The state after the cursor's line was indented by one step: two spaces
/// go in at its start, and the cursor keeps its place in the text.
pub open spec fn indented(state: BufferState, at_end: bool) -> BufferState {
    let start = Position { line: state.cursor.line, offset: 0 };
    if state.has(start) {
        let wider = after_insert(state.moved_to(start), seq![' ', ' '], at_end);
        settled(
            if state.cursor.offset <= usize::MAX - TAB_WIDTH {
                wider.moved_to(
                    Position {
                        line: state.cursor.line,
                        offset: (state.cursor.offset + 2) as usize,
                    },
                )
            } else {
                wider
            },
        )
    } else {
        state
    }
}

/// How many spaces one step of outdenting takes from the start of a line:
/// those that it starts with, and no more than one step is wide.
pub open spec fn leading_spaces(line: Seq<char>) -> nat {
    if line.len() >= 1 && line[0] == ' ' {
        if line.len() >= 2 && line[1] == ' ' {
            2
        } else {
            1
        }
    } else {
        0
    }
}

/// The state after the cursor's line was outdented by one step: the
/// cursor goes to the start of the line, the spaces there go, one step at
/// most, and the cursor goes back to its place in the text, or stays at
/// the start of the line where its place has gone.
pub open spec fn outdented(state: BufferState) -> BufferState {
    match nth_line(state.text, state.cursor.line as nat) {
        Some(content) => {
            let count = leading_spaces(content);
            if count > 0 && state.cursor.line < usize::MAX {
                settled(
                    after_delete(
                        state.moved_to(Position { line: state.cursor.line, offset: 0 }),
                        Position { line: state.cursor.line, offset: 0 },
                        Position { line: state.cursor.line, offset: count as usize },
                    ).moved_to(
                        Position {
                            line: state.cursor.line,
                            offset: if state.cursor.offset >= count {
                                (state.cursor.offset - count) as usize
                            } else {
                                0
                            },
                        },
                    ),
                )
            } else {
                state
            }
        },
        None => state,
    }
}

/// Brings the cursor back into the text after an edit: where the cursor
/// has lost its position, it goes to the start of its line, or else to the
/// start of the text.
pub(crate) fn settle_cursor(buffer: &mut scribe::Buffer)
    ensures
        crate::storage::buffer_state(*final(buffer)) == settled(
            crate::storage::buffer_state(*old(buffer)),
        ),
        crate::storage::buffer_state(*final(buffer)).cursor_in_bounds(),
{
    let place = cursor_position(buffer);
    if !cursor_move_to(buffer, place) {
        if !cursor_move_to(buffer, Position { line: place.line, offset: 0 }) {
            cursor_move_to(buffer, Position { line: 0, offset: 0 });
        }
    }
}

/// Marks the start of a group of edits that undo as one.
pub fn start_command_group(app: &mut Application)
    ensures
        final(app).mode == old(app).mode,
        final(app).view == old(app).view,
        same_surroundings(*old(app), *final(app)),
        cursor_kept_in_bounds(*old(app), *final(app)),
        scene(*final(app)) == scene(*old(app)).with_buffer(|s: BufferState| grouped(s)),
{
    match current_buffer(&mut app.workspace) {
        Some(buffer) => start_operation_group(buffer),
        None => (),
    }
}

/// Marks the end of a group of edits that undo as one.
pub fn end_command_group(app: &mut Application)
    ensures
        final(app).mode == old(app).mode,
        final(app).view == old(app).view,
        same_surroundings(*old(app), *final(app)),
        cursor_kept_in_bounds(*old(app), *final(app)),
        scene(*final(app)) == scene(*old(app)).with_buffer(|s: BufferState| ungrouped(s)),
{
    match current_buffer(&mut app.workspace) {
        Some(buffer) => end_operation_group(buffer),
        None => (),
    }
}

/// Breaks the line at the cursor and moves the cursor to the start of the
/// new line.
pub fn insert_newline(app: &mut Application)
    ensures
        final(app).mode == old(app).mode,
        final(app).view == old(app).view,
        same_surroundings(*old(app), *final(app)),
        scene(*final(app)).cursor_in_bounds(),
        either(
            scene(*final(app)),
            |at_end: bool| scene(*old(app)).with_buffer(|s: BufferState| with_newline(s, at_end)),
        ),
{
    match current_buffer(&mut app.workspace) {
        Some(buffer) => {
            proof {
                reveal_strlit("\n");
                assert("\n"@ =~= seq!['\n']);
            }
            buffer_insert(buffer, "\n");
            if cursor_position(buffer).line < usize::MAX {
                cursor_move_down(buffer);
            }
            cursor_move_to_start_of_line(buffer);
            settle_cursor(buffer);
        },
        None => (),
    }
}

/// Types the character that insert mode holds: it goes in at the cursor,
/// the cursor goes behind it, and the viewport follows. In any other mode,
/// and without a character, only the viewport is resynchronized.
pub fn insert_char(app: &mut Application)
    ensures
        final(app).mode == old(app).mode,
        same_surroundings(*old(app), *final(app)),
        cursor_kept_in_bounds(*old(app), *final(app)),
        either(
            scene(*final(app)),
            |at_end: bool|
                match held_character(old(app).mode) {
                    Some(character) => scene(*old(app)).with_buffer(
                        |s: BufferState| with_character(s, character, at_end),
                    ).synced(),
                    None => scene(*old(app)).synced(),
                },
        ),
{
    let held: Option<char> = match &app.mode {
        Mode::Insert(insert) => insert.input,
        _ => None,
    };
    match held {
        Some(character) => {
            match current_buffer(&mut app.workspace) {
                Some(buffer) => {
                    let mut typed = String::new();
                    typed.push(character);
                    proof {
                        assert(typed@ =~= seq![character]);
                    }
                    buffer_insert(buffer, typed.as_str());
                    if cursor_position(buffer).offset < usize::MAX {
                        cursor_move_right(buffer);
                    }
                    settle_cursor(buffer);
                },
                None => (),
            }
        },
        None => (),
    }
    crate::commands::view::scroll_to_cursor(app);
}

/// Puts the content of the clipboard into the buffer.
pub fn paste(app: &mut Application)
    ensures
        final(app).mode == old(app).mode,
        final(app).view == old(app).view,
        same_surroundings(*old(app), *final(app)),
        cursor_kept_in_bounds(*old(app), *final(app)),
        either(
            scene(*final(app)),
            |at_end: bool|
                scene(*old(app)).with_buffer(
                    |s: BufferState|
                        pasted(
                            s,
                            old(app).clipboard.held().kind(),
                            old(app).clipboard.held().text(),
                            at_end,
                        ),
                ),
        ),
{
    match current_buffer(&mut app.workspace) {
        Some(buffer) => {
            match app.clipboard.get_content() {
                ClipboardContent::Inline(content) => {
                    buffer_insert(buffer, content.as_str());
                    settle_cursor(buffer);
                },
                ClipboardContent::Block(content) => {
                    let place = cursor_position(buffer);
                    let moved: bool = if place.line < usize::MAX {
                        cursor_move_to(buffer, Position { line: place.line + 1, offset: 0 })
                    } else {
                        false
                    };
                    if moved {
                        buffer_insert(buffer, content.as_str());
                    } else {
                        // We're on the last line: add the lines behind it.
                        cursor_move_to_end_of_line(buffer);
                        let mut lines = String::from_str("\n");
                        lines.append(content.as_str());
                        proof {
                            reveal_strlit("\n");
                            assert("\n"@ =~= seq!['\n']);
                        }
                        buffer_insert(buffer, lines.as_str());
                        cursor_move_to(buffer, place);
                    }
                    settle_cursor(buffer);
                },
                ClipboardContent::Empty => (),
            }
        },
        None => (),
    }
}

/// Indents the cursor's line by one step.
pub fn indent_line(app: &mut Application)
    ensures
        final(app).mode == old(app).mode,
        final(app).view == old(app).view,
        same_surroundings(*old(app), *final(app)),
        cursor_kept_in_bounds(*old(app), *final(app)),
        either(
            scene(*final(app)),
            |at_end: bool| scene(*old(app)).with_buffer(|s: BufferState| indented(s, at_end)),
        ),
{
    match current_buffer(&mut app.workspace) {
        Some(buffer) => {
            let place = cursor_position(buffer);
            if cursor_move_to(buffer, Position { line: place.line, offset: 0 }) {
                proof {
                    reveal_strlit("  ");
                    assert("  "@ =~= seq![' ', ' ']);
                }
                buffer_insert(buffer, "  ");
                if place.offset <= usize::MAX - TAB_WIDTH {
                    cursor_move_to(
                        buffer,
                        Position { line: place.line, offset: place.offset + TAB_WIDTH },
                    );
                }
                settle_cursor(buffer);
            }
        },
        None => (),
    }
}

/// Outdents the cursor's line by one step.
pub fn outdent_line(app: &mut Application)
    ensures
        final(app).mode == old(app).mode,
        final(app).view == old(app).view,
        same_surroundings(*old(app), *final(app)),
        cursor_kept_in_bounds(*old(app), *final(app)),
        scene(*final(app)) == scene(*old(app)).with_buffer(|s: BufferState| outdented(s)),
{
    match current_buffer(&mut app.workspace) {
        Some(buffer) => {
            let place = cursor_position(buffer);
            let data = buffer_data(buffer);
            let text = chars_of(data.as_str());
            match line_bounds(&text, place.line) {
                Some((from, to)) => {
                    let ghost content = text@.subrange(from as int, to as int);
                    let mut count: usize = 0;
                    if to - from >= 1 && text[from] == ' ' {
                        count = 1;
                        if to - from >= 2 && text[from + 1] == ' ' {
                            count = 2;
                        }
                    }
                    proof {
                        if to - from >= 1 {
                            assert(content[0] == text@[from as int]);
                        }
                        if to - from >= 2 {
                            assert(content[1] == text@[from + 1]);
                        }
                        assert(count == leading_spaces(content));
                    }
                    if count > 0 && place.line < usize::MAX {
                        let range = Range::new(
                            Position { line: place.line, offset: 0 },
                            Position { line: place.line, offset: count },
                        );
                        cursor_move_to(buffer, Position { line: place.line, offset: 0 });
                        buffer_delete_range(buffer, &range);
                        let offset: usize = if place.offset >= count {
                            place.offset - count
                        } else {
                            0
                        };
                        cursor_move_to(buffer, Position { line: place.line, offset });
                        settle_cursor(buffer);
                    }
                },
                None => (),
            }
        },
        None => (),
    }
}

} // verus!

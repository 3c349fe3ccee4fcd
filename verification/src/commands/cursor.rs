//! Cursor motions. Every motion ends by resynchronizing the viewport, so
//! that the cursor stays in sight.
use vstd::prelude::*;
use crate::buffer::position::Position;
use crate::commands::{cursor_kept_in_bounds, same_surroundings, scene};
use crate::commands::application::switch_to_insert_mode;
use crate::commands::buffer::{either, grouped, insert_newline, start_command_group, with_newline};
use crate::commands::view::scroll_to_cursor;
use crate::helpers::token::{Direction, adjacent_boundary, adjacent_token_position};
use crate::models::application::{Application, Mode};
use crate::models::application::modes::InsertMode;
use crate::storage::{
    BufferState,
    after_move_down,
    after_move_to_end_of_line,
    after_move_to_first_line,
    after_move_to_last_line,
    after_move_up,
    buffer_data,
    current_buffer,
    current_state,
    cursor_move_down,
    cursor_move_left,
    cursor_move_right,
    cursor_move_to,
    cursor_move_to_end_of_line,
    cursor_move_to_first_line,
    cursor_move_to_last_line,
    cursor_move_to_start_of_line,
    cursor_move_up,
    cursor_position,
    in_bounds,
};
use crate::text::{
    chars_of,
    find_first_word,
    first_word_offset,
    line_bounds,
    newline_count,
    nth_line,
};
use crate::token::lexed;

verus! {

/// The state after a step of the cursor to the line below.
pub open spec fn down(state: BufferState) -> BufferState {
    if state.cursor.line < usize::MAX {
        after_move_down(state)
    } else {
        state
    }
}

/// The state after a bounds-checked step of the cursor one offset to the
/// left.
pub open spec fn left(state: BufferState) -> BufferState {
    if state.cursor.offset == 0 {
        state
    } else {
        state.moved_to(
            Position { line: state.cursor.line, offset: (state.cursor.offset - 1) as usize },
        )
    }
}

/// The state after a bounds-checked step of the cursor one offset to the
/// right.
pub open spec fn right(state: BufferState) -> BufferState {
    if state.cursor.offset < usize::MAX {
        state.moved_to(
            Position { line: state.cursor.line, offset: (state.cursor.offset + 1) as usize },
        )
    } else {
        state
    }
}

/// The state after a bounds-checked jump of the cursor to the start of
/// its line.
pub open spec fn at_start_of_line(state: BufferState) -> BufferState {
    state.moved_to(Position { line: state.cursor.line, offset: 0 })
}

/// Where the first word of the cursor's line starts: at its first
/// character that is not whitespace, if it has one.
pub open spec fn first_word_position(state: BufferState) -> Option<Position> {
    match nth_line(state.text, state.cursor.line as nat) {
        Some(content) => match first_word_offset(content) {
            Some(k) => Some(Position { line: state.cursor.line, offset: k as usize }),
            None => None,
        },
        None => None,
    }
}

/// The state after a bounds-checked jump of the cursor to the first word
/// of its line. A line that is empty or whitespace throughout leaves the
/// state as it is.
pub open spec fn at_first_word(state: BufferState) -> BufferState {
    match first_word_position(state) {
        Some(position) => state.moved_to(position),
        None => state,
    }
}

/// The state after a bounds-checked jump of the cursor to the token
/// boundary that a search from the cursor yields. A search that yields
/// nothing leaves the state as it is.
pub open spec fn at_token_boundary(
    state: BufferState,
    stop_at_end: bool,
    direction: Direction,
) -> BufferState {
    match adjacent_boundary(lexed(state.text), state.cursor, stop_at_end, direction) {
        Some(edge) => state.moved_to(Position { line: edge.0 as usize, offset: edge.1 as usize }),
        None => state,
    }
}

/// On a line of only whitespace, the jump to the first word leaves the
/// buffer as it is.
pub proof fn lemma_first_word_of_blank_line(state: BufferState)
    requires
        nth_line(state.text, state.cursor.line as nat) matches Some(content) && forall|i: int|
            0 <= i < content.len() ==> crate::text::is_whitespace(content[i]),
    ensures
        at_first_word(state) == state,
{
    crate::text::lemma_blank_line_has_no_first_word(
        nth_line(state.text, state.cursor.line as nat).unwrap(),
    );
}

/// At offset 0 a step to the left leaves the buffer as it is, and so does
/// a step to the right where the text has no position to the right of the
/// cursor.
pub proof fn lemma_steps_at_the_ends_of_a_line(state: BufferState)
    ensures
        state.cursor.offset == 0 ==> left(state) == state,
        !in_bounds(
            state.text,
            state.gap,
            state.cursor.line as nat,
            (state.cursor.offset + 1) as nat,
        ) ==> right(state) == state,
{
}

/// One line up. On line 0 the cursor stays where it is.
pub fn move_up(app: &mut Application)
    ensures
        final(app).mode == old(app).mode,
        same_surroundings(*old(app), *final(app)),
        cursor_kept_in_bounds(*old(app), *final(app)),
        scene(*final(app)) == scene(*old(app)).with_buffer(
            |s: BufferState| after_move_up(s),
        ).synced(),
        current_state(old(app).workspace) matches Some(state) ==> (state.cursor.line == 0
            ==> current_state(final(app).workspace) == Some(state)),
{
    match current_buffer(&mut app.workspace) {
        Some(buffer) => cursor_move_up(buffer),
        None => (),
    }
    scroll_to_cursor(app);
}

/// One line down. On the last line the cursor stays where it is.
pub fn move_down(app: &mut Application)
    ensures
        final(app).mode == old(app).mode,
        same_surroundings(*old(app), *final(app)),
        cursor_kept_in_bounds(*old(app), *final(app)),
        scene(*final(app)) == scene(*old(app)).with_buffer(|s: BufferState| down(s)).synced(),
        current_state(old(app).workspace) matches Some(state) ==> (state.cursor.line
            >= newline_count(state.text) ==> current_state(final(app).workspace) == Some(state)),
{
    match current_buffer(&mut app.workspace) {
        Some(buffer) => {
            if cursor_position(buffer).line < usize::MAX {
                cursor_move_down(buffer);
            }
        },
        None => (),
    }
    scroll_to_cursor(app);
}

/// One offset to the left. At offset 0 the cursor stays where it is.
pub fn move_left(app: &mut Application)
    ensures
        final(app).mode == old(app).mode,
        same_surroundings(*old(app), *final(app)),
        cursor_kept_in_bounds(*old(app), *final(app)),
        scene(*final(app)) == scene(*old(app)).with_buffer(|s: BufferState| left(s)).synced(),
        current_state(old(app).workspace) matches Some(state) ==> (state.cursor.offset == 0
            ==> current_state(final(app).workspace) == Some(state)),
{
    match current_buffer(&mut app.workspace) {
        Some(buffer) => cursor_move_left(buffer),
        None => (),
    }
    scroll_to_cursor(app);
}

/// One offset to the right. Where the text has no position to the right
/// of the cursor on its line, the cursor stays where it is.
pub fn move_right(app: &mut Application)
    ensures
        final(app).mode == old(app).mode,
        same_surroundings(*old(app), *final(app)),
        cursor_kept_in_bounds(*old(app), *final(app)),
        scene(*final(app)) == scene(*old(app)).with_buffer(|s: BufferState| right(s)).synced(),
        current_state(old(app).workspace) matches Some(state) ==> (!in_bounds(
            state.text,
            state.gap,
            state.cursor.line as nat,
            (state.cursor.offset + 1) as nat,
        ) ==> current_state(final(app).workspace) == Some(state)),
{
    match current_buffer(&mut app.workspace) {
        Some(buffer) => {
            if cursor_position(buffer).offset < usize::MAX {
                cursor_move_right(buffer);
            }
        },
        None => (),
    }
    scroll_to_cursor(app);
}

/// To the start of the cursor's line.
pub fn move_to_start_of_line(app: &mut Application)
    ensures
        final(app).mode == old(app).mode,
        same_surroundings(*old(app), *final(app)),
        cursor_kept_in_bounds(*old(app), *final(app)),
        scene(*final(app)) == scene(*old(app)).with_buffer(
            |s: BufferState| at_start_of_line(s),
        ).synced(),
{
    match current_buffer(&mut app.workspace) {
        Some(buffer) => cursor_move_to_start_of_line(buffer),
        None => (),
    }
    scroll_to_cursor(app);
}

/// To the first line of the buffer.
pub fn move_to_first_line(app: &mut Application)
    ensures
        final(app).mode == old(app).mode,
        same_surroundings(*old(app), *final(app)),
        cursor_kept_in_bounds(*old(app), *final(app)),
        scene(*final(app)) == scene(*old(app)).with_buffer(
            |s: BufferState| after_move_to_first_line(s),
        ).synced(),
{
    match current_buffer(&mut app.workspace) {
        Some(buffer) => cursor_move_to_first_line(buffer),
        None => (),
    }
    scroll_to_cursor(app);
}

/// To the last line of the buffer.
pub fn move_to_last_line(app: &mut Application)
    ensures
        final(app).mode == old(app).mode,
        same_surroundings(*old(app), *final(app)),
        cursor_kept_in_bounds(*old(app), *final(app)),
        scene(*final(app)) == scene(*old(app)).with_buffer(
            |s: BufferState| after_move_to_last_line(s),
        ).synced(),
{
    match current_buffer(&mut app.workspace) {
        Some(buffer) => cursor_move_to_last_line(buffer),
        None => (),
    }
    scroll_to_cursor(app);
}

/// To the first character of the cursor's line that is not whitespace. On
/// a line of only whitespace the cursor stays where it is.
pub fn move_to_first_word_of_line(app: &mut Application)
    ensures
        final(app).mode == old(app).mode,
        same_surroundings(*old(app), *final(app)),
        cursor_kept_in_bounds(*old(app), *final(app)),
        scene(*final(app)) == scene(*old(app)).with_buffer(
            |s: BufferState| at_first_word(s),
        ).synced(),
        current_state(old(app).workspace) matches Some(state) ==> (first_word_position(state)
            is None ==> current_state(final(app).workspace) == Some(state)),
{
    match current_buffer(&mut app.workspace) {
        Some(buffer) => {
            // Get the current line.
            let data = buffer_data(buffer);
            let text = chars_of(data.as_str());
            let line: usize = cursor_position(buffer).line;
            match line_bounds(&text, line) {
                Some((from, to)) => {
                    // Find the offset of the first non-whitespace character.
                    match find_first_word(&text, from, to) {
                        Some(offset) => {
                            // Move the cursor to this position.
                            cursor_move_to(buffer, Position { line, offset });
                        },
                        None => (),
                    }
                },
                None => (),
            }
        },
        None => (),
    }
    scroll_to_cursor(app);
}

/// To the end of the cursor's line.
pub fn move_to_end_of_line(app: &mut Application)
    ensures
        final(app).mode == old(app).mode,
        same_surroundings(*old(app), *final(app)),
        cursor_kept_in_bounds(*old(app), *final(app)),
        scene(*final(app)) == scene(*old(app)).with_buffer(
            |s: BufferState| after_move_to_end_of_line(s),
        ).synced(),
{
    match current_buffer(&mut app.workspace) {
        Some(buffer) => cursor_move_to_end_of_line(buffer),
        None => (),
    }
    scroll_to_cursor(app);
}

/// The mode after a switch to insert mode was asked for: insert mode where
/// there is a buffer to type into, else the mode as it was.
pub open spec fn insert_mode_if_buffer(before: Application) -> Mode {
    if current_state(before.workspace) is Some {
        Mode::Insert(InsertMode { input: None })
    } else {
        before.mode
    }
}

/// To the end of the cursor's line, and into insert mode.
pub fn insert_at_end_of_line(app: &mut Application)
    ensures
        final(app).mode == insert_mode_if_buffer(*old(app)),
        same_surroundings(*old(app), *final(app)),
        cursor_kept_in_bounds(*old(app), *final(app)),
        scene(*final(app)) == scene(*old(app)).with_buffer(
            |s: BufferState| after_move_to_end_of_line(s),
        ).synced().with_buffer(|s: BufferState| grouped(s)).synced().synced(),
{
    move_to_end_of_line(app);
    switch_to_insert_mode(app);
    scroll_to_cursor(app);
}

/// To the first word of the cursor's line, and into insert mode.
pub fn insert_at_first_word_of_line(app: &mut Application)
    ensures
        final(app).mode == insert_mode_if_buffer(*old(app)),
        same_surroundings(*old(app), *final(app)),
        cursor_kept_in_bounds(*old(app), *final(app)),
        scene(*final(app)) == scene(*old(app)).with_buffer(
            |s: BufferState| at_first_word(s),
        ).synced().with_buffer(|s: BufferState| grouped(s)).synced().synced(),
{
    move_to_first_word_of_line(app);
    switch_to_insert_mode(app);
    scroll_to_cursor(app);
}

/// Opens a line below the cursor's line and types into it: the cursor goes
/// to the end of its line, a group of edits starts, the line is broken,
/// and insert mode takes over.
pub fn insert_with_newline(app: &mut Application)
    ensures
        final(app).mode == insert_mode_if_buffer(*old(app)),
        same_surroundings(*old(app), *final(app)),
        cursor_kept_in_bounds(*old(app), *final(app)),
        either(
            scene(*final(app)),
            |at_end: bool|
                scene(*old(app)).with_buffer(
                    |s: BufferState| after_move_to_end_of_line(s),
                ).synced().with_buffer(|s: BufferState| grouped(s)).with_buffer(
                    |s: BufferState| with_newline(s, at_end),
                ).with_buffer(|s: BufferState| grouped(s)).synced().synced(),
        ),
{
    move_to_end_of_line(app);
    start_command_group(app);
    insert_newline(app);
    switch_to_insert_mode(app);
    scroll_to_cursor(app);
}

/// Opens a line above the cursor's line and types into it: the cursor goes
/// to the start of its line, a group of edits starts, the line is broken,
/// the cursor goes back up, and insert mode takes over.
pub fn insert_with_newline_above(app: &mut Application)
    ensures
        final(app).mode == insert_mode_if_buffer(*old(app)),
        same_surroundings(*old(app), *final(app)),
        cursor_kept_in_bounds(*old(app), *final(app)),
        either(
            scene(*final(app)),
            |at_end: bool|
                scene(*old(app)).with_buffer(
                    |s: BufferState| at_start_of_line(s),
                ).synced().with_buffer(|s: BufferState| grouped(s)).with_buffer(
                    |s: BufferState| with_newline(s, at_end),
                ).with_buffer(|s: BufferState| after_move_up(s)).synced().with_buffer(
                    |s: BufferState| grouped(s),
                ).synced().synced(),
        ),
{
    move_to_start_of_line(app);
    start_command_group(app);
    insert_newline(app);
    move_up(app);
    switch_to_insert_mode(app);
    scroll_to_cursor(app);
}

/// To the start of the nearest token that is not whitespace and starts
/// before the cursor; from within a token, that is the token's own start.
pub fn move_to_start_of_previous_token(app: &mut Application)
    ensures
        final(app).mode == old(app).mode,
        same_surroundings(*old(app), *final(app)),
        cursor_kept_in_bounds(*old(app), *final(app)),
        scene(*final(app)) == scene(*old(app)).with_buffer(
            |s: BufferState| at_token_boundary(s, false, Direction::Backward),
        ).synced(),
{
    match current_buffer(&mut app.workspace) {
        Some(buffer) => {
            match adjacent_token_position(buffer, false, Direction::Backward) {
                Some(position) => {
                    cursor_move_to(buffer, position);
                },
                None => (),
            };
        },
        None => (),
    }
    scroll_to_cursor(app);
}

/// To the start of the nearest token that is not whitespace and starts
/// after the cursor.
pub fn move_to_start_of_next_token(app: &mut Application)
    ensures
        final(app).mode == old(app).mode,
        same_surroundings(*old(app), *final(app)),
        cursor_kept_in_bounds(*old(app), *final(app)),
        scene(*final(app)) == scene(*old(app)).with_buffer(
            |s: BufferState| at_token_boundary(s, false, Direction::Forward),
        ).synced(),
{
    match current_buffer(&mut app.workspace) {
        Some(buffer) => {
            match adjacent_token_position(buffer, false, Direction::Forward) {
                Some(position) => {
                    cursor_move_to(buffer, position);
                },
                None => (),
            };
        },
        None => (),
    }
    scroll_to_cursor(app);
}

/// To the end of the nearest token that is not whitespace and ends after
/// the cursor.
pub fn move_to_end_of_current_token(app: &mut Application)
    ensures
        final(app).mode == old(app).mode,
        same_surroundings(*old(app), *final(app)),
        cursor_kept_in_bounds(*old(app), *final(app)),
        scene(*final(app)) == scene(*old(app)).with_buffer(
            |s: BufferState| at_token_boundary(s, true, Direction::Forward),
        ).synced(),
{
    match current_buffer(&mut app.workspace) {
        Some(buffer) => {
            match adjacent_token_position(buffer, true, Direction::Forward) {
                Some(position) => {
                    cursor_move_to(
                        buffer,
                        Position { line: position.line, offset: position.offset },
                    );
                },
                None => (),
            };
        },
        None => (),
    }
    scroll_to_cursor(app);
}

/// To the end of the current token, and into insert mode.
pub fn append_to_current_token(app: &mut Application)
    ensures
        final(app).mode == insert_mode_if_buffer(*old(app)),
        same_surroundings(*old(app), *final(app)),
        cursor_kept_in_bounds(*old(app), *final(app)),
        scene(*final(app)) == scene(*old(app)).with_buffer(
            |s: BufferState| at_token_boundary(s, true, Direction::Forward),
        ).with_buffer(|s: BufferState| grouped(s)).synced(),
{
    match current_buffer(&mut app.workspace) {
        Some(buffer) => {
            match adjacent_token_position(buffer, true, Direction::Forward) {
                Some(position) => {
                    cursor_move_to(buffer, position);
                },
                None => (),
            };
        },
        None => (),
    }
    switch_to_insert_mode(app);
}

} // verus!

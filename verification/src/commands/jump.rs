//! Commands of jump mode.
use vstd::prelude::*;
use crate::buffer::position::Position;
use crate::commands::{cursor_kept_in_bounds, same_surroundings, scene};
use crate::commands::application::switch_to_normal_mode;
use crate::commands::buffer::ungrouped;
use crate::commands::view::scroll_to_cursor;
use crate::models::application::{Application, Mode};
use crate::models::application::modes::jump::target_of;
use crate::storage::{BufferState, current_buffer, cursor_move_to};

verus! {

/// The position that what was typed in jump mode stands for, if it is a
/// tag of the session.
pub open spec fn typed_target(mode: Mode) -> Option<Position> {
    match mode {
        Mode::Jump(jump) => target_of(jump.tagged(), jump.typed()),
        _ => None,
    }
}

/// The state after a bounds-checked jump of the cursor to a target, if
/// there is one.
pub open spec fn at_target(state: BufferState, target: Option<Position>) -> BufferState {
    match target {
        Some(position) => state.moved_to(position),
        None => state,
    }
}

/// Jumps to the token whose tag was typed, and goes back to normal mode.
/// What is no tag of the session moves nothing.
pub fn jump_to_tag(app: &mut Application)
    ensures
        final(app).mode is Normal,
        same_surroundings(*old(app), *final(app)),
        cursor_kept_in_bounds(*old(app), *final(app)),
        scene(*final(app)) == scene(*old(app)).with_buffer(
            |s: BufferState| at_target(s, typed_target(old(app).mode)),
        ).with_buffer(|s: BufferState| ungrouped(s)).synced(),
{
    let target: Option<Position> = match &app.mode {
        Mode::Jump(jump) => jump.map_tag(jump.typed_text()),
        _ => None,
    };
    match target {
        Some(position) => match current_buffer(&mut app.workspace) {
            Some(buffer) => {
                cursor_move_to(buffer, position);
            },
            None => (),
        },
        None => (),
    }
    switch_to_normal_mode(app);
    scroll_to_cursor(app);
}

} // verus!

//! Commands that switch the mode.
use vstd::prelude::*;
use crate::commands::{cursor_kept_in_bounds, same_surroundings, scene};
use crate::commands::buffer::{grouped, ungrouped};
use crate::models::application::{Application, Mode};
use crate::models::application::modes::{
    InsertMode,
    JumpMode,
    LineJumpMode,
    SearchInsertMode,
    SelectLineMode,
    SelectMode,
};
use crate::storage::{BufferState, current_buffer_ref, current_state, cursor_position};

verus! {

/// Back to normal mode: an open group of edits is closed.
pub fn switch_to_normal_mode(app: &mut Application)
    ensures
        final(app).mode is Normal,
        final(app).view == old(app).view,
        same_surroundings(*old(app), *final(app)),
        cursor_kept_in_bounds(*old(app), *final(app)),
        scene(*final(app)) == scene(*old(app)).with_buffer(|s: BufferState| ungrouped(s)),
{
    crate::commands::buffer::end_command_group(app);
    app.mode = Mode::Normal;
}

/// To insert mode, where there is a buffer to type into: a group of edits
/// is opened, and the viewport follows the cursor. Without a current buffer
/// the mode stays as it is.
pub fn switch_to_insert_mode(app: &mut Application)
    ensures
        final(app).mode == if current_state(old(app).workspace) is Some {
            Mode::Insert(InsertMode { input: None })
        } else {
            old(app).mode
        },
        same_surroundings(*old(app), *final(app)),
        cursor_kept_in_bounds(*old(app), *final(app)),
        scene(*final(app)) == scene(*old(app)).with_buffer(
            |s: BufferState| grouped(s),
        ).synced(),
{
    if current_buffer_ref(&app.workspace).is_some() {
        crate::commands::buffer::start_command_group(app);
        app.mode = Mode::Insert(InsertMode::new());
    }
    crate::commands::view::scroll_to_cursor(app);
}

/// To jump mode, with no tags handed out yet.
pub fn switch_to_jump_mode(app: &mut Application)
    ensures
        final(app).mode matches Mode::Jump(jump) && jump.typed().len() == 0
            && jump.tagged().len() == 0,
        final(app).workspace == old(app).workspace,
        final(app).view == old(app).view,
        same_surroundings(*old(app), *final(app)),
        cursor_kept_in_bounds(*old(app), *final(app)),
{
    app.mode = Mode::Jump(JumpMode::new());
}

/// To line jump mode, with nothing typed yet.
pub fn switch_to_line_jump_mode(app: &mut Application)
    ensures
        final(app).mode matches Mode::LineJump(jump) && jump.input@.len() == 0,
        final(app).workspace == old(app).workspace,
        final(app).view == old(app).view,
        same_surroundings(*old(app), *final(app)),
        cursor_kept_in_bounds(*old(app), *final(app)),
{
    app.mode = Mode::LineJump(LineJumpMode::new());
}

/// To open mode over an index of the paths below the workspace, with
/// nothing typed and no results yet.
pub fn switch_to_open_mode(app: &mut Application, index: bloodhound::Index)
    ensures
        final(app).mode matches Mode::Open(open) && open.index == index && open.input@.len() == 0
            && open.results.items().len() == 0 && open.results.selected_index() == 0,
        final(app).workspace == old(app).workspace,
        final(app).view == old(app).view,
        same_surroundings(*old(app), *final(app)),
        cursor_kept_in_bounds(*old(app), *final(app)),
{
    app.mode = Mode::Open(crate::models::application::modes::OpenMode::new(index));
}

/// To select mode, anchored at the cursor. Without a current buffer the
/// mode stays as it is.
pub fn switch_to_select_mode(app: &mut Application)
    ensures
        final(app).mode == match current_state(old(app).workspace) {
            Some(state) => Mode::Select(SelectMode { anchor: state.cursor }),
            None => old(app).mode,
        },
        final(app).workspace == old(app).workspace,
        final(app).view == old(app).view,
        same_surroundings(*old(app), *final(app)),
        cursor_kept_in_bounds(*old(app), *final(app)),
{
    match current_buffer_ref(&app.workspace) {
        Some(buffer) => {
            app.mode = Mode::Select(SelectMode::new(cursor_position(buffer)));
        },
        None => (),
    }
}

/// To select line mode, anchored at the cursor's line. Without a current
/// buffer the mode stays as it is.
pub fn switch_to_select_line_mode(app: &mut Application)
    ensures
        final(app).mode == match current_state(old(app).workspace) {
            Some(state) => Mode::SelectLine(SelectLineMode { anchor: state.cursor.line }),
            None => old(app).mode,
        },
        final(app).workspace == old(app).workspace,
        final(app).view == old(app).view,
        same_surroundings(*old(app), *final(app)),
        cursor_kept_in_bounds(*old(app), *final(app)),
{
    match current_buffer_ref(&app.workspace) {
        Some(buffer) => {
            app.mode = Mode::SelectLine(SelectLineMode::new(cursor_position(buffer).line));
        },
        None => (),
    }
}

/// To search insert mode, with nothing typed yet.
pub fn switch_to_search_insert_mode(app: &mut Application)
    ensures
        final(app).mode matches Mode::SearchInsert(search) && search.input@.len() == 0,
        final(app).workspace == old(app).workspace,
        final(app).view == old(app).view,
        same_surroundings(*old(app), *final(app)),
        cursor_kept_in_bounds(*old(app), *final(app)),
{
    app.mode = Mode::SearchInsert(SearchInsertMode::new());
}

/// Asks the main loop to stop.
pub fn exit(app: &mut Application)
    ensures
        final(app).mode is Exit,
        final(app).workspace == old(app).workspace,
        final(app).view == old(app).view,
        same_surroundings(*old(app), *final(app)),
        cursor_kept_in_bounds(*old(app), *final(app)),
{
    app.mode = Mode::Exit;
}

} // verus!

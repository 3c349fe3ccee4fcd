//! Commands on the selection of select mode and select line mode.
use vstd::prelude::*;
use crate::buffer::line_range::LineRange;
use crate::buffer::range::Range;
use crate::commands::{cursor_kept_in_bounds, scene};
use crate::commands::application::{switch_to_insert_mode, switch_to_normal_mode};
use crate::commands::buffer::{grouped, settled, ungrouped};
use crate::commands::cursor::insert_mode_if_buffer;
use crate::helpers::inclusive_range;
use crate::models::application::{Application, ClipboardContent, Mode};
use crate::models::application::clipboard::ContentKind;
use crate::presenters::buffer::selection;
use crate::storage::{
    BufferState,
    after_delete,
    buffer_delete_range,
    buffer_read,
    current_buffer,
    current_buffer_ref,
    current_state,
    cursor_move_to,
    cursor_position,
    text_between,
};

verus! {

/// The span that the commands of a mode work on in the current buffer.
pub open spec fn selected(app: Application) -> Option<Range> {
    match current_state(app.workspace) {
        Some(state) => selection(app.mode, state),
        None => None,
    }
}

/// The selected text, where there is a selection and the text has both of
/// its ends.
pub open spec fn selected_text(app: Application) -> Option<Seq<char>> {
    match selected(app) {
        Some(range) => text_between(
            current_state(app.workspace).unwrap().text,
            current_state(app.workspace).unwrap().gap,
            range.start(),
            range.end(),
        ),
        None => None,
    }
}

/// What kind of content a mode's selection makes in the clipboard: whole
/// lines from select line mode, and text within lines from select mode.
pub open spec fn kind_of_selection(mode: Mode) -> ContentKind {
    match mode {
        Mode::SelectLine(_) => ContentKind::Block,
        _ => ContentKind::Inline,
    }
}

/// Whether the clipboard after a copy holds what was selected before; it
/// holds what it held where nothing was selected.
pub open spec fn copied(before: Application, after: Application) -> bool {
    match selected_text(before) {
        Some(content) => after.clipboard.held().text() == content && after.clipboard.held().kind()
            == kind_of_selection(before.mode),
        None => after.clipboard == before.clipboard,
    }
}

/// The state of a buffer after a span was taken out of it and the cursor
/// went to where the span began. A span that ends on the last line there
/// can be is left in.
pub open spec fn without(state: BufferState, range: Range) -> BufferState {
    if range.end().line < usize::MAX {
        settled(after_delete(state, range.start(), range.end()).moved_to(range.start()))
    } else {
        state
    }
}

/// The state of a buffer after the selection of a mode was taken out.
pub open spec fn without_selection(mode: Mode, state: BufferState) -> BufferState {
    match selection(mode, state) {
        Some(range) => without(state, range),
        None => state,
    }
}

/// Whether two applications agree in the view and in the search query and
/// the repository.
pub open spec fn same_view_and_surroundings(before: Application, after: Application) -> bool {
    &&& after.view == before.view
    &&& after.search_query == before.search_query
    &&& after.repository == before.repository
}

/// The selected span of the current buffer.
fn selected_range(app: &Application) -> (r: Option<Range>)
    ensures
        r == selected(*app),
{
    match current_buffer_ref(&app.workspace) {
        Some(buffer) => {
            let cursor = cursor_position(buffer);
            match &app.mode {
                Mode::Select(select_mode) => Some(Range::new(select_mode.anchor, cursor)),
                Mode::SelectLine(select_mode) => {
                    let range = LineRange::new(select_mode.anchor, cursor.line);
                    Some(inclusive_range(&range, buffer))
                },
                _ => None,
            }
        },
        None => None,
    }
}

fn copy_to_clipboard(app: &mut Application)
    ensures
        final(app).workspace == old(app).workspace,
        final(app).mode == old(app).mode,
        same_view_and_surroundings(*old(app), *final(app)),
        cursor_kept_in_bounds(*old(app), *final(app)),
        copied(*old(app), *final(app)),
{
    let content: Option<String> = match selected_range(app) {
        Some(range) => match current_buffer_ref(&app.workspace) {
            Some(buffer) => buffer_read(buffer, &range),
            None => None,
        },
        None => None,
    };
    match content {
        Some(selected_data) => {
            let block: bool = match &app.mode {
                Mode::SelectLine(_) => true,
                _ => false,
            };
            if block {
                app.clipboard.set_content(ClipboardContent::Block(selected_data));
            } else {
                app.clipboard.set_content(ClipboardContent::Inline(selected_data));
            }
        },
        None => (),
    }
}

/// Takes the selection out of the buffer, and puts the cursor where it
/// began.
pub fn delete(app: &mut Application)
    ensures
        final(app).mode == old(app).mode,
        final(app).clipboard == old(app).clipboard,
        same_view_and_surroundings(*old(app), *final(app)),
        cursor_kept_in_bounds(*old(app), *final(app)),
        scene(*final(app)) == scene(*old(app)).with_buffer(
            |s: BufferState| without_selection(old(app).mode, s),
        ),
{
    match selected_range(app) {
        Some(range) => {
            if range.end().line < usize::MAX {
                match current_buffer(&mut app.workspace) {
                    Some(buffer) => {
                        buffer_delete_range(buffer, &range);
                        cursor_move_to(buffer, range.start());
                        crate::commands::buffer::settle_cursor(buffer);
                    },
                    None => (),
                }
            }
        },
        None => (),
    }
}

/// Copies the selection to the clipboard, and goes back to normal mode.
pub fn copy(app: &mut Application)
    ensures
        final(app).mode is Normal,
        same_view_and_surroundings(*old(app), *final(app)),
        cursor_kept_in_bounds(*old(app), *final(app)),
        copied(*old(app), *final(app)),
        scene(*final(app)) == scene(*old(app)).with_buffer(|s: BufferState| ungrouped(s)),
{
    copy_to_clipboard(app);
    switch_to_normal_mode(app);
}

/// Copies the selection to the clipboard, takes it out of the buffer, and
/// goes back to normal mode.
pub fn copy_and_delete(app: &mut Application)
    ensures
        final(app).mode is Normal,
        same_view_and_surroundings(*old(app), *final(app)),
        cursor_kept_in_bounds(*old(app), *final(app)),
        copied(*old(app), *final(app)),
        scene(*final(app)) == scene(*old(app)).with_buffer(
            |s: BufferState| without_selection(old(app).mode, s),
        ).with_buffer(|s: BufferState| ungrouped(s)),
{
    copy_to_clipboard(app);
    delete(app);
    switch_to_normal_mode(app);
}

/// Copies the selection to the clipboard, takes it out of the buffer, and
/// goes on in insert mode.
pub fn change(app: &mut Application)
    ensures
        final(app).mode == insert_mode_if_buffer(*old(app)),
        final(app).search_query == old(app).search_query,
        final(app).repository == old(app).repository,
        final(app).view.current_theme() == old(app).view.current_theme(),
        final(app).view.width() == old(app).view.width(),
        final(app).view.height() == old(app).view.height(),
        cursor_kept_in_bounds(*old(app), *final(app)),
        copied(*old(app), *final(app)),
        scene(*final(app)) == scene(*old(app)).with_buffer(
            |s: BufferState| without_selection(old(app).mode, s),
        ).with_buffer(|s: BufferState| grouped(s)).synced(),
{
    copy_to_clipboard(app);
    delete(app);
    switch_to_insert_mode(app);
}

} // verus!

//! Commands of open mode.
use vstd::prelude::*;
use crate::commands::{cursor_kept_in_bounds, same_surroundings, scene};
use crate::commands::buffer::ungrouped;
use crate::models::application::{Application, Mode};
use crate::models::application::modes::open::{MAX_RESULTS, matching_paths, texts};
use crate::storage::BufferState;

verus! {

/// The path that open mode has selected, if the application is in open
/// mode and the search has results.
pub open spec fn selected_path(mode: Mode) -> Option<Seq<char>> {
    match mode {
        Mode::Open(open) => if open.results.selected_index() < open.results.items().len() {
            Some(open.results.items()[open.results.selected_index() as int]@)
        } else {
            None
        },
        _ => None,
    }
}

/// Whether a mode is what a search makes of another: in open mode the
/// results are the best matches of the index for what was typed, at most
/// `MAX_RESULTS` of them, with the first selected; any other mode stays as
/// it is.
pub open spec fn searched(before: Mode, after: Mode) -> bool {
    match before {
        Mode::Open(open) => after matches Mode::Open(found) && found.input == open.input
            && found.index == open.index && texts(found.results.items()) == matching_paths(
            open.index,
            open.input@,
            MAX_RESULTS as nat,
        ) && found.results.items().len() <= MAX_RESULTS && found.results.selected_index() == 0,
        _ => after == before,
    }
}

/// Whether a mode is another with the selection moved by one result, down
/// or up, as far as there are results; any mode but open mode stays as it
/// is.
pub open spec fn reselected(before: Mode, after: Mode, down: bool) -> bool {
    match before {
        Mode::Open(open) => after matches Mode::Open(moved) && moved.input == open.input
            && moved.index == open.index && moved.results.items() == open.results.items()
            && moved.results.selected_index() == if down {
            if open.results.selected_index() + 1 < open.results.items().len() {
                (open.results.selected_index() + 1) as usize
            } else {
                open.results.selected_index()
            }
        } else {
            if open.results.selected_index() > 0 {
                (open.results.selected_index() - 1) as usize
            } else {
                0
            }
        },
        _ => after == before,
    }
}

/// Leaves open mode for normal mode, and hands back the selected path for
/// the caller to open as a buffer.
pub fn open(app: &mut Application) -> (r: Option<String>)
    ensures
        match r {
            Some(path) => selected_path(old(app).mode) == Some(path@),
            None => selected_path(old(app).mode) is None,
        },
        final(app).mode is Normal,
        final(app).view == old(app).view,
        same_surroundings(*old(app), *final(app)),
        cursor_kept_in_bounds(*old(app), *final(app)),
        scene(*final(app)) == scene(*old(app)).with_buffer(|s: BufferState| ungrouped(s)),
{
    let path: Option<String> = match &app.mode {
        Mode::Open(mode) => {
            match mode.selected_path() {
                Some(path) => Some(path.clone()),
                None => None,
            }
        },
        _ => None,
    };
    crate::commands::application::switch_to_normal_mode(app);
    path
}

/// Runs the search for what was typed in open mode. In any other mode
/// nothing changes.
pub fn search(app: &mut Application)
    ensures
        final(app).workspace == old(app).workspace,
        final(app).view == old(app).view,
        same_surroundings(*old(app), *final(app)),
        cursor_kept_in_bounds(*old(app), *final(app)),
        searched(old(app).mode, final(app).mode),
{
    match &mut app.mode {
        Mode::Open(mode) => mode.search(),
        _ => (),
    }
}

/// Selects the result below the selected one, if there is one.
pub fn select_next_path(app: &mut Application)
    ensures
        final(app).workspace == old(app).workspace,
        final(app).view == old(app).view,
        same_surroundings(*old(app), *final(app)),
        cursor_kept_in_bounds(*old(app), *final(app)),
        reselected(old(app).mode, final(app).mode, true),
{
    match &mut app.mode {
        Mode::Open(mode) => mode.results.select_next(),
        _ => (),
    }
}

/// Selects the result above the selected one, if there is one.
pub fn select_previous_path(app: &mut Application)
    ensures
        final(app).workspace == old(app).workspace,
        final(app).view == old(app).view,
        same_surroundings(*old(app), *final(app)),
        cursor_kept_in_bounds(*old(app), *final(app)),
        reselected(old(app).mode, final(app).mode, false),
{
    match &mut app.mode {
        Mode::Open(mode) => mode.results.select_previous(),
        _ => (),
    }
}

} // verus!

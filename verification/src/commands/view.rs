//! Commands on the viewport.
use vstd::prelude::*;
use crate::commands::{Scene, cursor_kept_in_bounds, same_surroundings, scene};
use crate::helpers::scroll_key;
use crate::models::application::Application;
use crate::storage::current_buffer_ref;
use crate::view::offset_at;
use crate::view::scrollable_region::{saturating_difference, saturating_sum};

verus! {

/// How many lines one scroll command moves the window.
pub const SCROLL_STEP: usize = 10;

impl Scene {
    /// The scene after the current buffer was scrolled up by one step,
    /// stopping at the top. A buffer that nothing has scrolled yet stays
    /// as it is.
    pub open spec fn stepped_up(self) -> Scene {
        match self.buffer {
            Some(state) => if self.offsets.contains_key(scroll_key(state.id)) {
                Scene {
                    offsets: self.offsets.insert(
                        scroll_key(state.id),
                        saturating_difference(
                            offset_at(self.offsets, scroll_key(state.id)) as int,
                            SCROLL_STEP as int,
                        ) as usize,
                    ),
                    ..self
                }
            } else {
                self
            },
            None => self,
        }
    }

    /// The scene after the current buffer was scrolled down by one step.
    pub open spec fn stepped_down(self) -> Scene {
        match self.buffer {
            Some(state) => Scene {
                offsets: self.offsets.insert(
                    scroll_key(state.id),
                    saturating_sum(
                        offset_at(self.offsets, scroll_key(state.id)) as int,
                        SCROLL_STEP as int,
                    ) as usize,
                ),
                ..self
            },
            None => self,
        }
    }
}

/// Brings the cursor of the current buffer into sight. Without a current
/// buffer nothing changes.
pub fn scroll_to_cursor(app: &mut Application)
    ensures
        final(app).workspace == old(app).workspace,
        final(app).mode == old(app).mode,
        same_surroundings(*old(app), *final(app)),
        cursor_kept_in_bounds(*old(app), *final(app)),
        scene(*final(app)) == scene(*old(app)).synced(),
{
    match current_buffer_ref(&app.workspace) {
        Some(buffer) => app.view.scroll_to_cursor(buffer),
        None => (),
    }
}

/// Scrolls the current buffer up by one step, stopping at the top.
pub fn scroll_up(app: &mut Application)
    ensures
        final(app).workspace == old(app).workspace,
        final(app).mode == old(app).mode,
        same_surroundings(*old(app), *final(app)),
        cursor_kept_in_bounds(*old(app), *final(app)),
        scene(*final(app)) == scene(*old(app)).stepped_up(),
{
    match current_buffer_ref(&app.workspace) {
        Some(buffer) => app.view.scroll_up(buffer, SCROLL_STEP),
        None => (),
    }
}

/// Scrolls the current buffer down by one step.
pub fn scroll_down(app: &mut Application)
    ensures
        final(app).workspace == old(app).workspace,
        final(app).mode == old(app).mode,
        same_surroundings(*old(app), *final(app)),
        cursor_kept_in_bounds(*old(app), *final(app)),
        scene(*final(app)) == scene(*old(app)).stepped_down(),
{
    match current_buffer_ref(&app.workspace) {
        Some(buffer) => app.view.scroll_down(buffer, SCROLL_STEP),
        None => (),
    }
}

} // verus!

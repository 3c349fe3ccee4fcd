//! What select line mode shows: the buffer with the selected lines
//! highlighted, under a status line of its own.
use vstd::prelude::*;
use crate::helpers::scroll_key;
use crate::models::application::Mode;
use crate::models::application::modes::select_line::SelectLineMode;
use crate::presenters::{buffer_status_line_data, status_text};
use crate::presenters::buffer::{data, selection};
use crate::storage::{buffer_state, is_modified};
use crate::text::line_total;
use crate::token::lexed;
use crate::view::color::Color;
use crate::view::terminal::{Screen, text_views};

verus! {

/// The label of the mode on the status line.
pub open spec fn label() -> Seq<char> {
    " SELECT LINE "@
}

/// Whether a screen is what the mode shows of a buffer through a view.
pub open spec fn displayed(
    r: Screen,
    buffer: Option<&scribe::Buffer>,
    mode: &SelectLineMode,
    view: &crate::view::View,
) -> bool {
    match buffer {
        Some(buf) => {
            let state = buffer_state(*buf);
            let layout = view.layout_of(
                scroll_key(state.id),
                line_total(state.text) as usize,
                Some(state.cursor),
                selection(Mode::SelectLine(*mode), state),
            );
            &&& r.cells@ == layout.drawn(view.in_sight(scroll_key(state.id), lexed(state.text)))
            &&& layout.in_grid(r.cells@)
            &&& r.cursor == layout.terminal_cursor()
            &&& text_views(r.texts@) == view.status_segments(
                label(),
                Color::White,
                Some(Color::Blue),
                status_text(state, is_modified(*buf)),
            )
        },
        None => r.cells@.len() == 0 && r.texts@.len() == 0 && r.cursor is None,
    }
}

/// Assembles the screen of select line mode.
pub fn display(buffer: Option<&scribe::Buffer>, mode: &SelectLineMode, view: &crate::view::View) -> (r:
    Screen)
    ensures
        displayed(r, buffer, mode, view),
{
    match buffer {
        Some(buf) => {
            // Bundle up the presentable data.
            let selecting = Mode::SelectLine(SelectLineMode::new(mode.anchor));
            let drawable = data(Some(buf), &selecting);

            // Draw the visible set of tokens to the terminal.
            let frame = view.draw_tokens(&drawable);

            // Draw the status line.
            let content = buffer_status_line_data(buf);
            let texts = view.draw_status_segments(
                " SELECT LINE ",
                Color::White,
                Some(Color::Blue),
                content.as_str(),
            );
            Screen { cells: frame.cells, texts, cursor: frame.cursor }
        },
        None => {
            // There's no buffer; clear the cursor.
            Screen { cells: Vec::new(), texts: Vec::new(), cursor: None }
        },
    }
}

} // verus!

//! What the modes show that draw nothing of their own: the buffer with
//! the mode's selection, under a status line that names the mode.
use vstd::prelude::*;
use crate::helpers::scroll_key;
use crate::models::application::Mode;
use crate::presenters::{buffer_status_line_data, status_text};
use crate::presenters::buffer::{data, selection, status_color};
use crate::storage::{buffer_state, is_modified};
use crate::text::line_total;
use crate::token::lexed;
use crate::view::color::Color;
use crate::view::terminal::{Screen, text_views};

verus! {

/// The label of a mode on the status line.
pub open spec fn label(mode: Mode) -> Seq<char> {
    match mode {
        Mode::Normal => " NORMAL "@,
        Mode::Insert(_) => " INSERT "@,
        Mode::Jump(_) => " JUMP "@,
        Mode::LineJump(_) => " LINE JUMP "@,
        Mode::SymbolJump(_) => " SYMBOL JUMP "@,
        Mode::Open(_) => " OPEN "@,
        Mode::Select(_) => " SELECT "@,
        Mode::SelectLine(_) => " SELECT LINE "@,
        Mode::SearchInsert(_) => " SEARCH "@,
        Mode::Exit => Seq::empty(),
    }
}

/// The label of a mode on the status line.
pub fn mode_label(mode: &Mode) -> (r: &'static str)
    ensures
        r@ == label(*mode),
{
    match mode {
        Mode::Normal => " NORMAL ",
        Mode::Insert(_) => " INSERT ",
        Mode::Jump(_) => " JUMP ",
        Mode::LineJump(_) => " LINE JUMP ",
        Mode::SymbolJump(_) => " SYMBOL JUMP ",
        Mode::Open(_) => " OPEN ",
        Mode::Select(_) => " SELECT ",
        Mode::SelectLine(_) => " SELECT LINE ",
        Mode::SearchInsert(_) => " SEARCH ",
        Mode::Exit => {
            proof {
                reveal_strlit("");
                assert(""@ =~= Seq::<char>::empty());
            }
            ""
        },
    }
}

/// Whether a screen is what the mode shows of a buffer through a view.
pub open spec fn displayed(
    r: Screen,
    buffer: Option<&scribe::Buffer>,
    mode: &Mode,
    view: &crate::view::View,
) -> bool {
    match buffer {
        Some(buf) => {
            let state = buffer_state(*buf);
            let layout = view.layout_of(
                scroll_key(state.id),
                line_total(state.text) as usize,
                Some(state.cursor),
                selection(*mode, state),
            );
            &&& r.cells@ == layout.drawn(view.in_sight(scroll_key(state.id), lexed(state.text)))
            &&& layout.in_grid(r.cells@)
            &&& r.cursor == layout.terminal_cursor()
            &&& text_views(r.texts@) == view.status_segments(
                label(*mode),
                Color::Default,
                status_color(*mode),
                status_text(state, is_modified(*buf)),
            )
        },
        None => r.cells@.len() == 0 && r.texts@.len() == 0 && r.cursor is None,
    }
}

/// Assembles the screen of a mode that draws nothing of its own.
pub fn display(buffer: Option<&scribe::Buffer>, mode: &Mode, view: &crate::view::View) -> (r:
    Screen)
    ensures
        displayed(r, buffer, mode, view),
{
    match buffer {
        Some(buf) => {
            // Bundle up the presentable data.
            let drawable = data(Some(buf), mode);

            // Draw the visible set of tokens to the terminal.
            let frame = view.draw_tokens(&drawable);

            // Draw the status line.
            let content = buffer_status_line_data(buf);
            let texts = view.draw_status_segments(
                mode_label(mode),
                Color::Default,
                drawable.status_line.color,
                content.as_str(),
            );
            Screen { cells: frame.cells, texts, cursor: frame.cursor }
        },
        None => Screen { cells: Vec::new(), texts: Vec::new(), cursor: None },
    }
}

} // verus!

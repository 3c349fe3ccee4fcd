//! What jump mode shows: the buffer with a tag on every token in sight
//! that can carry one.
use vstd::prelude::*;
use crate::helpers::{buffer_id, scroll_key};
use crate::models::application::modes::jump::{JumpMode, overlaid, targets};
use crate::presenters::{
    buffer_status_line_data,
    lemma_visible_length,
    line_count,
    status_text,
    visible_tokens,
};
use crate::storage::{buffer_data, buffer_state, cursor_position, is_modified};
use crate::text::line_total;
use crate::token::{lex, lexed};
use crate::view::canvas::draw;
use crate::view::color::Color;
use crate::view::scrollable_region::ScrollableRegion;
use crate::view::terminal::{Screen, text_views};

verus! {

/// The label of the mode on the status line.
pub open spec fn label() -> Seq<char> {
    " JUMP "@
}

/// Whether a screen is what jump mode shows of a buffer through a view,
/// and the mode after it holds the tags that the screen shows.
pub open spec fn displayed(
    r: Screen,
    buffer: Option<&scribe::Buffer>,
    before: &JumpMode,
    after: &JumpMode,
    view: &crate::view::View,
) -> bool {
    &&& after.typed() == before.typed()
    &&& match buffer {
        Some(buf) => {
            let state = buffer_state(*buf);
            let key = scroll_key(state.id);
            let layout = view.layout_of(
                key,
                line_total(state.text) as usize,
                Some(state.cursor),
                None,
            );
            let tokens = view.in_sight(key, lexed(state.text));
            &&& after.tagged() == targets(tokens, tokens.len() as int, view.offset_of(key))
            &&& r.cells@ == layout.drawn(overlaid(tokens, tokens.len() as int))
            &&& layout.in_grid(r.cells@)
            &&& r.cursor == layout.terminal_cursor()
            &&& text_views(r.texts@) == view.status_segments(
                label(),
                Color::Default,
                None,
                status_text(state, is_modified(*buf)),
            )
        },
        None => after.tagged() == before.tagged() && r.cells@.len() == 0 && r.texts@.len() == 0
            && r.cursor is None,
    }
}

/// Assembles the screen of jump mode, and hands out the tags that it
/// shows.
pub fn display(buffer: Option<&scribe::Buffer>, mode: &mut JumpMode, view: &crate::view::View) -> (r:
    Screen)
    ensures
        displayed(r, buffer, old(mode), final(mode), view),
{
    match buffer {
        Some(buf) => {
            // Get the buffer's tokens and reduce them to the visible set.
            let text = buffer_data(buf);
            let length: usize = text.as_str().unicode_len();
            let tokens = lex(text.as_str());
            let layout = view.layout(
                buffer_id(buf),
                line_count(text.as_str()),
                Some(cursor_position(buf)),
                None,
            );
            let region = ScrollableRegion::at(layout.rows, layout.line_offset);
            let range = region.visible_range();
            let visible = visible_tokens(&tokens, range);
            proof {
                crate::token::lemma_lexed_covers(text@);
                lemma_visible_length(
                    lexed(text@),
                    tokens@.len() as int,
                    range.start() as int,
                    range.end() as int,
                );
            }

            // Hand out the tags, and draw them atop their tokens.
            let tagged = mode.tag_tokens(&visible, layout.line_offset);
            let cells = draw(&tagged, &layout);

            // Draw the status line.
            let content = buffer_status_line_data(buf);
            let texts = view.draw_status_segments(" JUMP ", Color::Default, None, content.as_str());
            Screen { cells, texts, cursor: crate::view::View::terminal_cursor(&layout) }
        },
        None => Screen { cells: Vec::new(), texts: Vec::new(), cursor: None },
    }
}

} // verus!

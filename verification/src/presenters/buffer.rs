//! The drawable data of a buffer under a mode.
use vstd::prelude::*;
use crate::buffer::line_range::LineRange;
use crate::buffer::position::Position;
use crate::buffer::range::Range;
use crate::helpers::{buffer_id, inclusive_end, inclusive_range, scroll_key};
use crate::models::application::Mode;
use crate::presenters::line_count;
use crate::storage::{BufferState, buffer_data, buffer_path, buffer_state, cursor_position};
use crate::text::line_total;
use crate::token::{lex, lexed, token_views};
use crate::view::{Data, StatusLine};
use crate::view::color::Color;

verus! {

/// The color that sets the status line apart under a mode: green in
/// insert mode, and the view's own in any other.
pub open spec fn status_color(mode: Mode) -> Option<Color> {
    match mode {
        Mode::Insert(_) => Some(Color::Green),
        _ => None,
    }
}

/// The span that a mode highlights in a buffer: in select mode the span
/// between the anchor and the cursor; in select line mode the whole lines
/// from the anchor line to the cursor's line, the last one included; in
/// any other mode none.
pub open spec fn selection(mode: Mode, state: BufferState) -> Option<Range> {
    match mode {
        Mode::Select(select) => Some(Range::new(select.anchor, state.cursor)),
        Mode::SelectLine(select) => Some(
            Range::new(
                Position {
                    line: LineRange::new(select.anchor, state.cursor.line).start(),
                    offset: 0,
                },
                inclusive_end(
                    state.text,
                    LineRange::new(select.anchor, state.cursor.line).end(),
                ),
            ),
        ),
        _ => None,
    }
}

/// The text of a path, or no text where there is no path.
pub open spec fn path_text(path: Option<Seq<char>>) -> Seq<char> {
    match path {
        Some(text) => text,
        None => Seq::empty(),
    }
}

/// Whether drawable data shows a buffer in a given state under a mode:
/// its tokens, its cursor, the mode's selection, its number of lines, and
/// its path on the status line.
pub open spec fn presents(data: Data, state: BufferState, mode: Mode) -> bool {
    &&& data.buffer_id == scroll_key(state.id)
    &&& data.tokens matches Some(tokens) && token_views(tokens@) == lexed(state.text)
    &&& data.cursor == Some(state.cursor)
    &&& data.highlight == selection(mode, state)
    &&& data.line_count == line_total(state.text)
    &&& data.status_line.content@ == path_text(state.path)
    &&& data.status_line.color == status_color(mode)
}

/// Whether drawable data shows that there is no buffer.
pub open spec fn presents_nothing(data: Data) -> bool {
    &&& data.buffer_id == 0
    &&& data.tokens is None
    &&& data.cursor is None
    &&& data.highlight is None
    &&& data.line_count == 0
    &&& data.status_line.content@.len() == 0
    &&& data.status_line.color is None
}

/// Gathers the drawable data of a buffer under a mode; without a buffer
/// there is nothing to draw.
pub fn data(buffer: Option<&scribe::Buffer>, mode: &Mode) -> (r: Data)
    ensures
        match buffer {
            Some(buf) => presents(r, buffer_state(*buf), *mode),
            None => presents_nothing(r),
        },
{
    match buffer {
        Some(buf) => {
            // Build status line data.
            let content = match buffer_path(buf) {
                Some(path) => path,
                None => String::new(),
            };
            let color = match mode {
                Mode::Insert(_) => Some(Color::Green),
                _ => None,
            };

            // If we're in select mode, get the selected range.
            let cursor = cursor_position(buf);
            let highlight = match mode {
                Mode::Select(select_mode) => Some(Range::new(select_mode.anchor, cursor)),
                Mode::SelectLine(select_mode) => {
                    let range = select_mode.to_range(&cursor);
                    Some(inclusive_range(&range, buf))
                },
                _ => None,
            };
            let text = buffer_data(buf);

            Data {
                buffer_id: buffer_id(buf),
                tokens: Some(lex(text.as_str())),
                cursor: Some(cursor),
                highlight,
                line_count: line_count(text.as_str()),
                status_line: StatusLine { content, color },
            }
        },
        None => Data {
            buffer_id: 0,
            tokens: None,
            cursor: None,
            highlight: None,
            line_count: 0,
            status_line: StatusLine { content: String::new(), color: None },
        },
    }
}

} // verus!

//! What open mode shows: the buffer, if there is one, then the list of
//! search results, and below it the line that takes the search input.
use vstd::prelude::*;
use crate::buffer::position::Position;
use crate::helpers::scroll_key;
use crate::models::application::modes::open::{MAX_RESULTS, OpenMode};
use crate::presenters::{buffer_status_line_data, status_text};
use crate::storage::{buffer_state, is_modified};
use crate::text::line_total;
use crate::token::lexed;
use crate::view::color::{Color, Style};
use crate::view::terminal::{Screen, Text, TextView, pad_to_width, padded, text_views};

verus! {

/// The label of the mode on the status line.
pub open spec fn label() -> Seq<char> {
    " OPEN "@
}

/// The row of the result at `index`: its path, padded to the width of the
/// terminal, on the alternate background if it is the selected one.
pub open spec fn result_row(view: crate::view::View, mode: OpenMode, index: int) -> TextView {
    TextView {
        x: 0,
        y: index as usize,
        style: Style::Normal,
        foreground: Color::Default,
        background: if index == mode.results.selected_index() {
            view.alt_background()
        } else {
            Color::Default
        },
        content: padded(mode.results.items()[index]@, view.width() as nat),
    }
}

/// The line that takes the search input, below the rows of the results.
pub open spec fn input_row(view: crate::view::View, mode: OpenMode) -> TextView {
    TextView {
        x: 0,
        y: MAX_RESULTS,
        style: Style::Bold,
        foreground: Color::Black,
        background: Color::White,
        content: padded(mode.input@, view.width() as nat),
    }
}

/// The rows of the results, in order, and the input line.
pub open spec fn list_rows(view: crate::view::View, mode: OpenMode) -> Seq<TextView> {
    Seq::new(mode.results.items().len(), |i: int| result_row(view, mode, i)).push(
        input_row(view, mode),
    )
}

/// Whether a screen is what the mode shows of a buffer through a view.
pub open spec fn displayed(
    r: Screen,
    buffer: Option<&scribe::Buffer>,
    mode: &OpenMode,
    view: &crate::view::View,
) -> bool {
    &&& match buffer {
        Some(buf) => {
            let state = buffer_state(*buf);
            let layout = view.layout_of(
                scroll_key(state.id),
                line_total(state.text) as usize,
                None,
                None,
            );
            &&& r.cells@ == layout.drawn(view.in_sight(scroll_key(state.id), lexed(state.text)))
            &&& layout.in_grid(r.cells@)
            &&& text_views(r.texts@) == view.status_segments(
                label(),
                Color::Black,
                Some(Color::White),
                status_text(state, is_modified(*buf)),
            ) + list_rows(*view, *mode)
        },
        None => r.cells@.len() == 0 && text_views(r.texts@) == list_rows(*view, *mode),
    }
    &&& r.cursor == Some(Position { line: MAX_RESULTS, offset: mode.input@.len() as usize })
}

/// Assembles the screen of open mode.
pub fn display(buffer: Option<&scribe::Buffer>, mode: &OpenMode, view: &crate::view::View) -> (r:
    Screen)
    ensures
        displayed(r, buffer, mode, view),
{
    let mut cells: Vec<crate::view::canvas::Cell> = Vec::new();
    let mut texts: Vec<Text> = Vec::new();
    let ghost mut head: Seq<TextView> = Seq::empty();
    proof {
        assert(text_views(texts@) =~= head);
    }
    if let Some(buf) = buffer {
        // Get the buffer's tokens and reduce them to the visible set.
        let text = crate::storage::buffer_data(buf);
        let drawable = crate::view::Data {
            buffer_id: crate::helpers::buffer_id(buf),
            tokens: Some(crate::token::lex(text.as_str())),
            cursor: None,
            highlight: None,
            line_count: crate::presenters::line_count(text.as_str()),
            status_line: crate::view::StatusLine { content: String::new(), color: None },
        };

        // Draw the visible set of tokens to the terminal.
        let frame = view.draw_tokens(&drawable);
        cells = frame.cells;

        // Draw the status line.
        let content = buffer_status_line_data(buf);
        texts = view.draw_status_segments(
            " OPEN ",
            Color::Black,
            Some(Color::White),
            content.as_str(),
        );
        proof {
            head = text_views(texts@);
        }
    }
    // Draw the list of search results.
    let mut line: usize = 0;
    proof {
        assert(head + Seq::new(0, |i: int| result_row(*view, *mode, i)) =~= head);
    }
    while line < mode.results.len()
        invariant
            line <= mode.results.items().len(),
            text_views(texts@) == head + Seq::new(
                line as nat,
                |i: int| result_row(*view, *mode, i),
            ),
        decreases mode.results.items().len() - line,
    {
        let color = if line == mode.results.selected_index() {
            view.alt_background_color()
        } else {
            Color::Default
        };
        match mode.results.get(line) {
            Some(result) => {
                let row = Text {
                    x: 0,
                    y: line,
                    style: Style::Normal,
                    foreground: Color::Default,
                    background: color,
                    content: pad_to_width(result.as_str(), view.width()),
                };
                proof {
                    assert(row@ == result_row(*view, *mode, line as int));
                    assert(text_views(texts@.push(row)) =~= text_views(texts@).push(row@));
                    assert(text_views(texts@).push(row@) =~= head + Seq::new(
                        (line + 1) as nat,
                        |i: int| result_row(*view, *mode, i),
                    ));
                }
                texts.push(row);
            },
            None => {},
        }
        line += 1;
    }
    // Draw the divider.
    let divider = Text {
        x: 0,
        y: MAX_RESULTS,
        style: Style::Bold,
        foreground: Color::Black,
        background: Color::White,
        content: pad_to_width(mode.input.as_str(), view.width()),
    };
    proof {
        assert(divider@ == input_row(*view, *mode));
        assert(text_views(texts@.push(divider)) =~= text_views(texts@).push(divider@));
        assert(text_views(texts@).push(divider@) =~= head + list_rows(*view, *mode));
        assert(Seq::<TextView>::empty() + list_rows(*view, *mode) =~= list_rows(*view, *mode));
    }
    texts.push(divider);

    // Place the cursor on the search input line, right after its contents.
    Screen {
        cells,
        texts,
        cursor: Some(Position { line: MAX_RESULTS, offset: mode.input.as_str().unicode_len() }),
    }
}

} // verus!

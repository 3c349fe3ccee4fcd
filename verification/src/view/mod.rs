//! The viewport: terminal geometry, theme, and one scroll offset per buffer.
pub mod canvas;
pub mod color;
pub mod data;
pub mod gutter;
pub mod laws;
pub mod scrollable_region;
pub mod terminal;

pub use self::data::{Data, StatusLine};

use vstd::prelude::*;
use vstd::view::View as _;
use std::collections::HashMap;
use crate::buffer::position::Position;
use crate::helpers::{buffer_id, scroll_key};
use crate::presenters::{clipped, relative_range, visible, visible_tokens};
use crate::storage::{buffer_state, cursor_position};
use crate::token::token_views;
use crate::view::canvas::{Layout, draw};
use crate::view::color::{Color, Style};
use crate::view::gutter::{line_number_width, number_width};
use crate::view::scrollable_region::{
    ScrollableRegion,
    Visibility,
    offset_showing,
    saturating_difference,
    saturating_sum,
};
use crate::view::terminal::{Frame, Text, pad_to_width, padded};

verus! {

#[derive(Clone, Copy, Debug, PartialEq, Eq, Structural)]
pub enum Theme {
    Dark,
    Light,
}

pub struct View {
    pub theme: Theme,
    width: usize,
    height: usize,
    scroll_offsets: HashMap<usize, usize>,
}

impl View {
    /// The scroll offsets on record, by buffer key.
    pub closed spec fn offsets(&self) -> Map<usize, usize> {
        vstd::view::View::view(&self.scroll_offsets)
    }

    /// The scroll offset of a buffer: the one on record, or 0 for a buffer
    /// that nothing has scrolled yet.
    pub open spec fn offset_of(&self, key: usize) -> usize {
        offset_at(self.offsets(), key)
    }

    /// The theme that the view draws in.
    pub closed spec fn current_theme(&self) -> Theme {
        self.theme
    }

    pub closed spec fn spec_width(&self) -> usize {
        self.width
    }

    pub closed spec fn spec_height(&self) -> usize {
        self.height
    }

    /// The rows that show buffer content: all but the status line.
    pub open spec fn region_height(&self) -> usize {
        if self.height() > 0 {
            (self.height() - 1) as usize
        } else {
            0
        }
    }

    /// A view onto a terminal of the given size, with the dark theme and
    /// nothing scrolled.
    pub fn new(width: usize, height: usize) -> (r: View)
        ensures
            r.current_theme() == Theme::Dark,
            r.width() == width,
            r.height() == height,
            r.offsets() == Map::<usize, usize>::empty(),
    {
        View { theme: Theme::Dark, width, height, scroll_offsets: HashMap::new() }
    }

    #[verifier::when_used_as_spec(spec_width)]
    pub fn width(&self) -> (r: usize)
        ensures
            r == self.width(),
    {
        self.width
    }

    #[verifier::when_used_as_spec(spec_height)]
    pub fn height(&self) -> (r: usize)
        ensures
            r == self.height(),
    {
        self.height
    }

    /// Takes over the size of the terminal after it has changed.
    pub fn resize(&mut self, width: usize, height: usize)
        ensures
            final(self).current_theme() == old(self).current_theme(),
            final(self).width() == width,
            final(self).height() == height,
            final(self).offsets() == old(self).offsets(),
    {
        self.width = width;
        self.height = height;
    }

    fn stored_offset(&self, key: usize) -> (r: usize)
        ensures
            r == self.offset_of(key),
    {
        broadcast use vstd::std_specs::hash::group_hash_axioms;

        match self.scroll_offsets.get(&key) {
            Some(offset) => *offset,
            None => 0,
        }
    }

    /// The window of lines that the view shows of a buffer.
    pub fn visible_region(&self, buffer: &scribe::Buffer) -> (r: ScrollableRegion)
        ensures
            r.height() == self.region_height(),
            r.line_offset() == self.offset_of(scroll_key(buffer_state(*buffer).id)),
    {
        let rows: usize = if self.height > 0 {
            self.height - 1
        } else {
            0
        };
        ScrollableRegion::at(rows, self.stored_offset(buffer_id(buffer)))
    }

    pub fn alt_background_color(&self) -> (r: Color)
        ensures
            r == self.alt_background(),
    {
        match self.theme {
            Theme::Dark => Color::Black,
            Theme::Light => Color::White,
        }
    }

    /// The alternate background of the theme.
    pub open spec fn alt_background(&self) -> Color {
        match self.current_theme() {
            Theme::Dark => Color::Black,
            Theme::Light => Color::White,
        }
    }

    /// The window that the view shows of the buffer with a given key.
    pub open spec fn region_of(&self, key: usize) -> ScrollableRegion {
        ScrollableRegion::spec_at(self.region_height(), self.offset_of(key))
    }

    /// What the drawing of a buffer goes by: the size of the terminal, the
    /// buffer's scroll offset, the width that the line numbers in sight
    /// need, and the cursor and the highlight as the window shows them:
    /// the cursor on its row while its line is in sight, the highlight
    /// converted to rows and cut at the window's edges.
    pub open spec fn layout_of(
        &self,
        key: usize,
        line_count: usize,
        cursor: Option<Position>,
        highlight: Option<crate::buffer::range::Range>,
    ) -> Layout {
        let region = self.region_of(key);
        Layout {
            width: self.width(),
            rows: self.region_height(),
            number_width: number_width(
                line_count as int,
                self.offset_of(key) as int,
                self.region_height() as int,
            ) as usize,
            line_offset: self.offset_of(key),
            cursor: match cursor {
                Some(position) => match region.relative_position(position.line) {
                    Visibility::Visible(row) => Some(
                        Position { line: row, offset: position.offset },
                    ),
                    _ => None,
                },
                None => None,
            },
            highlight: match highlight {
                Some(range) => Some(
                    crate::buffer::range::Range::new(
                        clipped(region, range.start()),
                        clipped(region, range.end()),
                    ),
                ),
                None => None,
            },
            alt_background: self.alt_background(),
        }
    }

    /// The layout for drawable data.
    pub open spec fn layout_for(&self, data: Data) -> Layout {
        self.layout_of(data.buffer_id, data.line_count, data.cursor, data.highlight)
    }

    /// What the window of the buffer with a given key shows of tokens.
    pub open spec fn in_sight(
        &self,
        key: usize,
        tokens: Seq<crate::token::TokenView>,
    ) -> Seq<crate::token::TokenView> {
        visible(
            tokens,
            tokens.len() as int,
            self.offset_of(key) as int,
            crate::view::scrollable_region::saturating_sum(
                self.offset_of(key) as int,
                self.region_height() as int,
            ),
        )
    }

    /// The tokens of the drawable data that the window of its buffer
    /// shows.
    pub open spec fn tokens_in_sight(&self, data: Data) -> Seq<crate::token::TokenView> {
        match data.tokens {
            Some(tokens) => self.in_sight(data.buffer_id, token_views(tokens@)),
            None => Seq::empty(),
        }
    }

    /// The status line as a value: the content in bold on the bottom row,
    /// padded to the width of the terminal, on the given color or else on
    /// the alternate background.
    pub open spec fn status_line(
        &self,
        content: Seq<char>,
        color: Option<Color>,
    ) -> crate::view::terminal::TextView {
        crate::view::terminal::TextView {
            x: 0,
            y: self.region_height(),
            style: Style::Bold,
            foreground: Color::Default,
            background: match color {
                Some(color) => color,
                None => self.alt_background(),
            },
            content: padded(content, self.width() as nat),
        }
    }

    /// The status line in two runs, as values: the label of the mode in the
    /// mode's own colors, and behind it what is said of the buffer, padded
    /// to the right edge of the terminal on the alternate background. Both
    /// are bold, on the bottom row.
    pub open spec fn status_segments(
        &self,
        label: Seq<char>,
        foreground: Color,
        background: Option<Color>,
        content: Seq<char>,
    ) -> Seq<crate::view::terminal::TextView> {
        seq![
            crate::view::terminal::TextView {
                x: 0,
                y: self.region_height(),
                style: Style::Bold,
                foreground,
                background: match background {
                    Some(color) => color,
                    None => self.alt_background(),
                },
                content: label,
            },
            crate::view::terminal::TextView {
                x: label.len() as usize,
                y: self.region_height(),
                style: Style::Bold,
                foreground: Color::Default,
                background: self.alt_background(),
                content: padded(
                    content,
                    if self.width() >= label.len() {
                        (self.width() - label.len()) as nat
                    } else {
                        0
                    },
                ),
            },
        ]
    }

    /// Draws the status line in two runs: the label of the mode, and
    /// behind it what is said of the buffer.
    pub fn draw_status_segments(
        &self,
        label: &str,
        foreground: Color,
        background: Option<Color>,
        content: &str,
    ) -> (r: Vec<Text>)
        ensures
            crate::view::terminal::text_views(r@) == self.status_segments(
                label@,
                foreground,
                background,
                content@,
            ),
    {
        let line: usize = if self.height > 0 {
            self.height - 1
        } else {
            0
        };
        let taken: usize = label.unicode_len();
        let first = Text {
            x: 0,
            y: line,
            style: Style::Bold,
            foreground,
            background: match background {
                Some(color) => color,
                None => self.alt_background_color(),
            },
            content: String::from_str(label),
        };
        let second = Text {
            x: taken,
            y: line,
            style: Style::Bold,
            foreground: Color::Default,
            background: self.alt_background_color(),
            content: pad_to_width(content, self.width.saturating_sub(taken)),
        };
        let mut runs: Vec<Text> = Vec::new();
        runs.push(first);
        runs.push(second);
        proof {
            assert(crate::view::terminal::text_views(runs@) =~= self.status_segments(
                label@,
                foreground,
                background,
                content@,
            ));
        }
        runs
    }

    /// Works out the layout for drawing a buffer.
    pub fn layout(
        &self,
        key: usize,
        line_count: usize,
        cursor: Option<Position>,
        highlight: Option<crate::buffer::range::Range>,
    ) -> (r: Layout)
        ensures
            r == self.layout_of(key, line_count, cursor, highlight),
    {
        let offset: usize = self.stored_offset(key);
        let rows: usize = if self.height > 0 {
            self.height - 1
        } else {
            0
        };
        let region = ScrollableRegion::at(rows, offset);

        // Determine the gutter size based on the lines in sight.
        let line_number_width: usize = line_number_width(line_count, offset, rows);

        // The buffer tracks its cursor absolutely, but the view must
        // display it relative to any scrolling.
        let cursor = match cursor {
            Some(position) => match region.relative_position(position.line) {
                Visibility::Visible(row) => Some(Position { line: row, offset: position.offset }),
                _ => None,
            },
            None => None,
        };
        let highlight = match &highlight {
            Some(range) => Some(relative_range(&region, range)),
            None => None,
        };
        Layout {
            width: self.width,
            rows,
            number_width: line_number_width,
            line_offset: offset,
            cursor,
            highlight,
            alt_background: self.alt_background_color(),
        }
    }

    /// Where the terminal's cursor goes under a layout.
    pub fn terminal_cursor(layout: &Layout) -> (r: Option<Position>)
        ensures
            r == layout.terminal_cursor(),
    {
        // Set the terminal cursor, considering leading line numbers.
        match layout.cursor {
            Some(position) => Some(
                Position {
                    line: position.line,
                    offset: position.offset.saturating_add(
                        layout.number_width.saturating_add(2),
                    ),
                },
            ),
            None => None,
        }
    }

    /// Draws the tokens of the drawable data that are in sight, each row
    /// behind its line number, with the cursor and the highlight where the
    /// window shows them. Data without tokens draws nothing.
    pub fn draw_tokens(&self, data: &Data) -> (r: Frame)
        ensures
            match data.tokens {
                Some(tokens) => r.cursor == self.layout_for(*data).terminal_cursor() && r.cells@
                    == self.layout_for(*data).drawn(self.tokens_in_sight(*data)),
                None => r.cursor is None && r.cells@.len() == 0,
            },
            self.layout_for(*data).in_grid(r.cells@),
    {
        // Get the visible set of tokens.
        let layout = self.layout(data.buffer_id, data.line_count, data.cursor, data.highlight);
        let region = ScrollableRegion::at(layout.rows, layout.line_offset);
        let tokens = match &data.tokens {
            Some(tokens) => visible_tokens(tokens, region.visible_range()),
            None => {
                return Frame { cursor: None, cells: Vec::new() };
            },
        };
        let cells = draw(&tokens, &layout);
        Frame { cursor: Self::terminal_cursor(&layout), cells }
    }

    /// The status line: the content in bold on the bottom row, padded to
    /// the width of the terminal, on the given color or else on the
    /// alternate background.
    pub fn draw_status_line(&self, content: &str, color: Option<Color>) -> (r: Text)
        ensures
            r@ == self.status_line(content@, color),
    {
        let line: usize = if self.height > 0 {
            self.height - 1
        } else {
            0
        };
        Text {
            x: 0,
            y: line,
            style: Style::Bold,
            foreground: Color::Default,
            background: match color {
                Some(color) => color,
                None => self.alt_background_color(),
            },
            content: pad_to_width(content, self.width),
        }
    }

    /// Scrolls a buffer up by `amount` lines, stopping at the top. A buffer
    /// that nothing has scrolled yet stays as it is.
    pub fn scroll_up(&mut self, buffer: &scribe::Buffer, amount: usize)
        ensures
            final(self).current_theme() == old(self).current_theme(),
            final(self).width() == old(self).width(),
            final(self).height() == old(self).height(),
            final(self).offsets() == if old(self).offsets().contains_key(
                scroll_key(buffer_state(*buffer).id),
            ) {
                old(self).offsets().insert(
                    scroll_key(buffer_state(*buffer).id),
                    saturating_difference(
                        old(self).offset_of(scroll_key(buffer_state(*buffer).id)) as int,
                        amount as int,
                    ) as usize,
                )
            } else {
                old(self).offsets()
            },
    {
        broadcast use vstd::std_specs::hash::group_hash_axioms;

        let key: usize = buffer_id(buffer);
        if self.scroll_offsets.contains_key(&key) {
            let offset: usize = self.stored_offset(key);
            self.scroll_offsets.insert(key, offset.saturating_sub(amount));
        }
    }

    /// Scrolls a buffer down by `amount` lines. The first scroll of a
    /// buffer puts its offset on record.
    pub fn scroll_down(&mut self, buffer: &scribe::Buffer, amount: usize)
        ensures
            final(self).current_theme() == old(self).current_theme(),
            final(self).width() == old(self).width(),
            final(self).height() == old(self).height(),
            final(self).offsets() == old(self).offsets().insert(
                scroll_key(buffer_state(*buffer).id),
                saturating_sum(
                    old(self).offset_of(scroll_key(buffer_state(*buffer).id)) as int,
                    amount as int,
                ) as usize,
            ),
    {
        broadcast use vstd::std_specs::hash::group_hash_axioms;

        let key: usize = buffer_id(buffer);
        let offset: usize = self.stored_offset(key);
        self.scroll_offsets.insert(key, offset.saturating_add(amount));
    }

    /// Brings the cursor of a buffer into sight: the buffer's offset moves
    /// just as far as it takes for the window to show the cursor's line,
    /// and stays as it is where the window shows that line already.
    pub fn scroll_to_cursor(&mut self, buffer: &scribe::Buffer)
        ensures
            final(self).current_theme() == old(self).current_theme(),
            final(self).width() == old(self).width(),
            final(self).height() == old(self).height(),
            final(self).offsets() == offsets_showing(
                old(self).offsets(),
                scroll_key(buffer_state(*buffer).id),
                old(self).region_height(),
                buffer_state(*buffer).cursor.line,
            ),
    {
        broadcast use vstd::std_specs::hash::group_hash_axioms;

        let key: usize = buffer_id(buffer);
        let mut region = self.visible_region(buffer);
        let before: usize = region.line_offset();
        region.scroll_into_view(cursor_position(buffer).line);
        if region.line_offset() != before {
            self.scroll_offsets.insert(key, region.line_offset());
        }
    }
}

/// The offset on record for a key, or 0 where there is none.
pub open spec fn offset_at(offsets: Map<usize, usize>, key: usize) -> usize {
    if offsets.contains_key(key) {
        offsets[key]
    } else {
        0
    }
}

/// The offsets after the window of the buffer with the given key, `rows`
/// lines high, was brought to show a line: the buffer's offset moves as far
/// as that takes, and the record stays as it is where it takes nothing.
pub open spec fn offsets_showing(
    offsets: Map<usize, usize>,
    key: usize,
    rows: usize,
    line: usize,
) -> Map<usize, usize> {
    let target = offset_showing(offset_at(offsets, key) as int, rows as int, line as int);
    if target == offset_at(offsets, key) {
        offsets
    } else {
        offsets.insert(key, target as usize)
    }
}

/// Bringing a line into sight twice in a row does no more than doing it
/// once; and after it the window shows the line, if it has any height.
pub proof fn lemma_offsets_showing_idempotent(
    offsets: Map<usize, usize>,
    key: usize,
    rows: usize,
    line: usize,
)
    ensures
        offsets_showing(offsets_showing(offsets, key, rows, line), key, rows, line)
            == offsets_showing(offsets, key, rows, line),
        rows > 0 ==> crate::view::scrollable_region::shows(
            offset_at(offsets_showing(offsets, key, rows, line), key) as int,
            rows as int,
            line as int,
        ),
{
    crate::view::scrollable_region::lemma_offset_showing_idempotent(
        offset_at(offsets, key) as int,
        rows as int,
        line as int,
    );
}

} // verus!

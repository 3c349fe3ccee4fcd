//! From visible tokens to terminal cells: the line number gutter, the
//! characters of the tokens, the highlight, and the emphasis of the
//! cursor's line.
use vstd::prelude::*;
use crate::buffer::position::Position;
use crate::buffer::range::Range;
use crate::token::{Token, TokenView, token_views};
use crate::view::color::{Color, Style, color_of};
use crate::view::gutter::{line_number, line_number_text};
use crate::view::scrollable_region::saturating_sum;

verus! {

/// The horizontal offset of the line length guide.
pub const LINE_LENGTH_GUIDE_OFFSET: usize = 80;

/// One painted cell of the terminal grid.
#[derive(Clone, Copy, Debug, PartialEq, Eq, Structural)]
pub struct Cell {
    pub x: usize,
    pub y: usize,
    pub style: Style,
    pub foreground: Color,
    pub background: Color,
    pub character: char,
}

/// What the drawing of a buffer goes by, in rows and columns of the
/// terminal.
#[derive(Clone, Copy, Debug, PartialEq, Eq, Structural)]
pub struct Layout {
    /// The columns of the terminal.
    pub width: usize,
    /// The rows that show buffer content.
    pub rows: usize,
    /// The width of the line number column.
    pub number_width: usize,
    /// The absolute line that the first row shows.
    pub line_offset: usize,
    /// The cursor, by row and offset, where it is in sight.
    pub cursor: Option<Position>,
    /// The highlighted span, by row and offset.
    pub highlight: Option<Range>,
    /// The background of the cursor's line and of the line numbers.
    pub alt_background: Color,
}

/// The pen: the cells painted so far, and the row and column that the next
/// character goes to.
pub struct Canvas {
    pub cells: Seq<Cell>,
    pub line: int,
    pub x: int,
}

impl Layout {
    /// Whether the cursor is on a row.
    pub open spec fn cursor_on(self, y: int) -> bool {
        self.cursor matches Some(cursor) && cursor.line == y
    }

    /// The line number that a row shows: rows count from the scroll
    /// offset, and numbers from one.
    pub open spec fn number_of(self, y: int) -> nat {
        saturating_sum(saturating_sum(y, self.line_offset as int), 1) as nat
    }

    /// The text of the gutter on a row.
    pub open spec fn gutter_text(self, y: int) -> Seq<char> {
        line_number_text(self.number_of(y), self.number_width as nat)
    }

    /// The cell of the gutter at column `k` of a row. The line number and
    /// the spaces before it stand on the alternate background, and so does
    /// the gap behind them apart from its last column; on the cursor's row
    /// the whole gutter is bold and on the alternate background.
    pub open spec fn gutter_cell(self, y: int, k: int) -> Cell {
        Cell {
            x: k as usize,
            y: y as usize,
            style: if self.cursor_on(y) {
                Style::Bold
            } else {
                Style::Normal
            },
            foreground: Color::Default,
            background: if k > self.number_width && !self.cursor_on(y) {
                Color::Default
            } else {
                self.alt_background
            },
            character: self.gutter_text(y)[k],
        }
    }

    /// The cells of the gutter on a row, as far as the terminal is wide.
    pub open spec fn gutter_cells(self, y: int) -> Seq<Cell> {
        Seq::new(
            if self.gutter_text(y).len() < self.width {
                self.gutter_text(y).len()
            } else {
                self.width as nat
            },
            |k: int| self.gutter_cell(y, k),
        )
    }

    /// The cell of the line length guide on a row.
    pub open spec fn guide_cell(self, y: int) -> Cell {
        Cell {
            x: LINE_LENGTH_GUIDE_OFFSET,
            y: y as usize,
            style: Style::Normal,
            foreground: Color::Default,
            background: self.alt_background,
            character: ' ',
        }
    }

    /// What opens a row: its gutter and, where the terminal is wide enough
    /// for it, the line length guide.
    pub open spec fn opening_cells(self, y: int) -> Seq<Cell> {
        if LINE_LENGTH_GUIDE_OFFSET < self.width {
            self.gutter_cells(y).push(self.guide_cell(y))
        } else {
            self.gutter_cells(y)
        }
    }

    /// The blank cells that carry the alternate background from a column
    /// to the right edge of the terminal.
    pub open spec fn filling_cells(self, y: int, from: int, style: Style) -> Seq<Cell> {
        Seq::new(
            if from < self.width {
                (self.width - from) as nat
            } else {
                0nat
            },
            |k: int| self.filling_cell(y, from + k, style),
        )
    }

    /// A blank cell on the alternate background.
    pub open spec fn filling_cell(self, y: int, x: int, style: Style) -> Cell {
        Cell {
            x: x as usize,
            y: y as usize,
            style,
            foreground: Color::Default,
            background: self.alt_background,
            character: ' ',
        }
    }

    /// The position in the buffer's visible text that a column of a row
    /// stands for: its distance from the gutter.
    pub open spec fn position_at(self, y: int, x: int) -> Position {
        Position { line: y as usize, offset: (x - self.number_width - 2) as usize }
    }

    /// Whether the highlight covers a column of a row.
    pub open spec fn highlighted(self, y: int, x: int) -> bool {
        self.highlight matches Some(range) && range.includes(&self.position_at(y, x))
    }

    /// The style of the character at a column of a row: reversed under the
    /// highlight.
    pub open spec fn style_at(self, y: int, x: int) -> Style {
        if self.highlighted(y, x) {
            Style::Reverse
        } else {
            Style::Normal
        }
    }

    /// The cell of a character of a token at a column of a row: in its
    /// token's color, or reversed under the highlight, and on the
    /// alternate background on the cursor's row.
    pub open spec fn glyph_cell(self, y: int, x: int, character: char, color: Color) -> Cell {
        Cell {
            x: x as usize,
            y: y as usize,
            style: self.style_at(y, x),
            foreground: if self.highlighted(y, x) {
                Color::Default
            } else {
                color
            },
            background: if self.cursor_on(y) {
                self.alt_background
            } else {
                Color::Default
            },
            character,
        }
    }

    /// The canvas before the first character: the first row is opened.
    pub open spec fn opened(self) -> Canvas {
        if 0 < self.rows {
            Canvas { cells: self.opening_cells(0), line: 0, x: self.gutter_text(0).len() as int }
        } else {
            Canvas { cells: Seq::empty(), line: 0, x: 0 }
        }
    }

    /// The canvas after one more character. A line break completes the
    /// row, with the alternate background up to the right edge on the
    /// cursor's row, and opens the next one; any other character takes the
    /// next column, if the terminal has one left. Below the last row
    /// nothing is painted.
    pub open spec fn put(self, canvas: Canvas, character: char, color: Color) -> Canvas {
        if canvas.line >= self.rows {
            canvas
        } else if character == '\n' {
            let completed = if self.cursor_on(canvas.line) {
                canvas.cells + self.filling_cells(
                    canvas.line,
                    canvas.x,
                    self.style_at(canvas.line, canvas.x),
                )
            } else {
                canvas.cells
            };
            if canvas.line + 1 < self.rows {
                Canvas {
                    cells: completed + self.opening_cells(canvas.line + 1),
                    line: canvas.line + 1,
                    x: self.gutter_text(canvas.line + 1).len() as int,
                }
            } else {
                Canvas { cells: completed, line: canvas.line + 1, x: 0 }
            }
        } else if canvas.x < self.width {
            Canvas {
                cells: canvas.cells.push(self.glyph_cell(canvas.line, canvas.x, character, color)),
                line: canvas.line,
                x: canvas.x + 1,
            }
        } else {
            canvas
        }
    }

    /// The canvas after the characters of a lexeme.
    pub open spec fn put_lexeme(self, canvas: Canvas, lexeme: Seq<char>, color: Color) -> Canvas
        decreases lexeme.len(),
    {
        if lexeme.len() == 0 {
            canvas
        } else {
            self.put(self.put_lexeme(canvas, lexeme.drop_last(), color), lexeme.last(), color)
        }
    }

    /// The canvas after the first `count` tokens.
    pub open spec fn put_tokens(self, tokens: Seq<TokenView>, count: int) -> Canvas
        decreases count,
    {
        if count <= 0 {
            self.opened()
        } else {
            self.put_lexeme(
                self.put_tokens(tokens, count - 1),
                tokens[count - 1].lexeme,
                color_of(tokens[count - 1].category),
            )
        }
    }

    /// The cells of a canvas once drawing is over: on the cursor's row the
    /// alternate background goes on to the right edge.
    pub open spec fn finished(self, canvas: Canvas) -> Seq<Cell> {
        if canvas.line < self.rows && self.cursor_on(canvas.line) {
            canvas.cells + self.filling_cells(canvas.line, canvas.x, Style::Normal)
        } else {
            canvas.cells
        }
    }

    /// All the cells that show the tokens.
    pub open spec fn drawn(self, tokens: Seq<TokenView>) -> Seq<Cell> {
        self.finished(self.put_tokens(tokens, tokens.len() as int))
    }

    /// Where the terminal's cursor goes: to the cursor's row, as far right
    /// of the gutter as the cursor's offset says.
    pub open spec fn terminal_cursor(self) -> Option<Position> {
        match self.cursor {
            Some(cursor) => Some(
                Position {
                    line: cursor.line,
                    offset: saturating_sum(cursor.offset as int, self.number_width + 2) as usize,
                },
            ),
            None => None,
        }
    }

    /// Whether all of some cells lie on the rows and columns that the
    /// layout draws on.
    pub open spec fn in_grid(self, cells: Seq<Cell>) -> bool {
        forall|i: int|
            0 <= i < cells.len() ==> (#[trigger] cells[i]).x < self.width && cells[i].y
                < self.rows
    }

    /// Whether the cursor is on a row.
    fn is_cursor_on(&self, y: usize) -> (r: bool)
        ensures
            r == self.cursor_on(y as int),
    {
        match self.cursor {
            Some(cursor) => cursor.line == y,
            None => false,
        }
    }

    /// Whether the highlight covers a column of a row.
    fn is_highlighted(&self, y: usize, x: usize) -> (r: bool)
        requires
            self.number_width + 2 <= x,
        ensures
            r == self.highlighted(y as int, x as int),
    {
        match self.highlight {
            Some(range) => range.includes(
                &Position { line: y, offset: x - self.number_width - 2 },
            ),
            None => false,
        }
    }
}

/// Opens a row: paints its line number, right-aligned and followed by a
/// gap, and the line length guide. Yields the column at which the text of
/// the row begins.
fn draw_line_number(cells: &mut Vec<Cell>, layout: &Layout, y: usize) -> (x: usize)
    requires
        y < layout.rows,
        layout.in_grid(old(cells)@),
    ensures
        final(cells)@ == old(cells)@ + layout.opening_cells(y as int),
        x == layout.gutter_text(y as int).len(),
        layout.number_width + 2 <= x,
        layout.in_grid(final(cells)@),
{
    let number: usize = y.saturating_add(layout.line_offset).saturating_add(1);
    let text = line_number(number, layout.number_width);
    let bold: bool = layout.is_cursor_on(y);
    let ghost before = cells@;
    let mut k: usize = 0;
    proof {
        assert(cells@ =~= before + Seq::new(0, |j: int| layout.gutter_cell(y as int, j)));
    }
    while k < text.len() && k < layout.width
        invariant
            k <= text.len(),
            k <= layout.width,
            y < layout.rows,
            text@ == layout.gutter_text(y as int),
            bold == layout.cursor_on(y as int),
            cells@ == before + Seq::new(k as nat, |j: int| layout.gutter_cell(y as int, j)),
            layout.in_grid(cells@),
        decreases text.len() - k,
    {
        // Numbers (and their leading spaces) have background
        // color, but the right-hand side gutter gap does not.
        let background = if k > layout.number_width && !bold {
            Color::Default
        } else {
            layout.alt_background
        };
        // The current line number is emboldened.
        let weight = if bold {
            Style::Bold
        } else {
            Style::Normal
        };
        let cell = Cell {
            x: k,
            y,
            style: weight,
            foreground: Color::Default,
            background,
            character: text[k],
        };
        proof {
            assert(cell == layout.gutter_cell(y as int, k as int));
            assert(cells@.push(cell) =~= before + Seq::new(
                (k + 1) as nat,
                |j: int| layout.gutter_cell(y as int, j),
            ));
        }
        cells.push(cell);
        k += 1;
    }
    proof {
        assert(Seq::new(k as nat, |j: int| layout.gutter_cell(y as int, j))
            =~= layout.gutter_cells(y as int));
    }
    if LINE_LENGTH_GUIDE_OFFSET < layout.width {
        let guide = Cell {
            x: LINE_LENGTH_GUIDE_OFFSET,
            y,
            style: Style::Normal,
            foreground: Color::Default,
            background: layout.alt_background,
            character: ' ',
        };
        proof {
            assert(cells@.push(guide) =~= before + layout.opening_cells(y as int));
        }
        cells.push(guide);
    }
    text.len()
}

/// Carries the alternate background from a column of a row to the right
/// edge of the terminal.
fn fill_line(cells: &mut Vec<Cell>, layout: &Layout, y: usize, from: usize, style: Style)
    requires
        y < layout.rows,
        layout.in_grid(old(cells)@),
    ensures
        final(cells)@ == old(cells)@ + layout.filling_cells(y as int, from as int, style),
        layout.in_grid(final(cells)@),
{
    let ghost before = cells@;
    let mut x: usize = from;
    proof {
        assert(cells@ =~= before + Seq::new(
            0,
            |k: int| layout.filling_cell(y as int, from + k, style),
        ));
    }
    while x < layout.width
        invariant
            from <= x,
            x <= layout.width || x == from,
            y < layout.rows,
            cells@ == before + Seq::new(
                (x - from) as nat,
                |k: int| layout.filling_cell(y as int, from + k, style),
            ),
            layout.in_grid(cells@),
        decreases layout.width - x,
    {
        let cell = Cell {
            x,
            y,
            style,
            foreground: Color::Default,
            background: layout.alt_background,
            character: ' ',
        };
        proof {
            assert(cell == layout.filling_cell(y as int, from + (x - from), style));
            assert(cells@.push(cell) =~= before + Seq::new(
                (x + 1 - from) as nat,
                |k: int| layout.filling_cell(y as int, from + k, style),
            ));
        }
        cells.push(cell);
        x += 1;
    }
    proof {
        assert(Seq::new((x - from) as nat, |k: int| layout.filling_cell(y as int, from + k, style))
            =~= layout.filling_cells(y as int, from as int, style));
    }
}

/// Paints one character of a token and moves the pen on.
fn put_character(
    cells: &mut Vec<Cell>,
    line: &mut usize,
    x: &mut usize,
    layout: &Layout,
    character: char,
    color: Color,
)
    requires
        *old(line) <= layout.rows,
        *old(line) < layout.rows ==> layout.number_width + 2 <= *old(x),
        layout.in_grid(old(cells)@),
    ensures
        (Canvas { cells: final(cells)@, line: *final(line) as int, x: *final(x) as int })
            == layout.put(
            Canvas { cells: old(cells)@, line: *old(line) as int, x: *old(x) as int },
            character,
            color,
        ),
        *final(line) <= layout.rows,
        *final(line) < layout.rows ==> layout.number_width + 2 <= *final(x),
        layout.in_grid(final(cells)@),
{
    if *line >= layout.rows {
        return ;
    }
    if character == '\n' {
        // Print the rest of the line highlight.
        if layout.is_cursor_on(*line) {
            let style = if layout.is_highlighted(*line, *x) {
                Style::Reverse
            } else {
                Style::Normal
            };
            fill_line(cells, layout, *line, *x, style);
        }
        // Advance to the next line.
        *line = *line + 1;

        // Draw leading line number for the new line.
        if *line < layout.rows {
            *x = draw_line_number(cells, layout, *line);
        } else {
            *x = 0;
        }
    } else if *x < layout.width {
        let highlighted: bool = layout.is_highlighted(*line, *x);
        let cell = Cell {
            x: *x,
            y: *line,
            style: if highlighted {
                Style::Reverse
            } else {
                Style::Normal
            },
            foreground: if highlighted {
                Color::Default
            } else {
                color
            },
            background: if layout.is_cursor_on(*line) {
                layout.alt_background
            } else {
                Color::Default
            },
            character,
        };
        cells.push(cell);
        *x = *x + 1;
    }
}

/// Paints the tokens: row by row, each row behind its line number.
pub fn draw(tokens: &Vec<Token>, layout: &Layout) -> (r: Vec<Cell>)
    ensures
        r@ == layout.drawn(token_views(tokens@)),
        layout.in_grid(r@),
{
    let ghost views = token_views(tokens@);
    let mut cells: Vec<Cell> = Vec::new();
    let mut line: usize = 0;
    let mut x: usize = 0;

    // Draw the first line number.
    // Others will be drawn following newline characters.
    if 0 < layout.rows {
        x = draw_line_number(&mut cells, layout, 0);
        proof {
            assert(cells@ =~= layout.opening_cells(0));
        }
    }
    let mut i: usize = 0;
    while i < tokens.len()
        invariant
            i <= tokens.len(),
            views == token_views(tokens@),
            (Canvas { cells: cells@, line: line as int, x: x as int }) == layout.put_tokens(
                views,
                i as int,
            ),
            line <= layout.rows,
            line < layout.rows ==> layout.number_width + 2 <= x,
            layout.in_grid(cells@),
        decreases tokens.len() - i,
    {
        let token = &tokens[i];
        let token_color = crate::view::color::map(&token.category);
        let ghost lexeme = tokens@[i as int].lexeme@;
        let ghost start = layout.put_tokens(views, i as int);
        proof {
            assert(views[i as int] == tokens@[i as int]@);
            assert(lexeme.take(0) =~= Seq::<char>::empty());
        }
        for character in it: token.lexeme.as_str().chars()
            invariant
                it.seq() == lexeme,
                    (Canvas { cells: cells@, line: line as int, x: x as int }) == layout.put_lexeme(
                    start,
                    lexeme.take(it.index() as int),
                    token_color,
                ),
                line <= layout.rows,
                line < layout.rows ==> layout.number_width + 2 <= x,
                layout.in_grid(cells@),
        {
            proof {
                let k = it.index() as int;
                assert(lexeme.take(k + 1).drop_last() =~= lexeme.take(k));
                assert(lexeme.take(k + 1).last() == character);
            }
            put_character(&mut cells, &mut line, &mut x, layout, character, token_color);
        }
        proof {
            assert(lexeme.take(lexeme.len() as int) =~= lexeme);
        }
        i += 1;
    }
    // Print the rest of the line highlight.
    if line < layout.rows && layout.is_cursor_on(line) {
        fill_line(&mut cells, layout, line, x, Style::Normal);
    }
    cells
}

} // verus!

//! What the drawing shows, row by row: the guide on every row, the
//! alternate background on the cursor's row alone, and every character at
//! its column behind the gutter.
use vstd::prelude::*;
use crate::helpers::token::{advance, token_start};
use crate::token::TokenView;
use crate::view::canvas::{Canvas, Cell, LINE_LENGTH_GUIDE_OFFSET, Layout};
use crate::view::color::{Color, color_of};

verus! {

/// Whether a sequence of cells begins with another.
pub open spec fn begins_with(cells: Seq<Cell>, start: Seq<Cell>) -> bool {
    start.len() <= cells.len() && forall|i: int| 0 <= i < start.len() ==> cells[i] == start[i]
}

impl Layout {
    /// The column at which the text of a row begins: behind its gutter.
    pub open spec fn text_column(self, y: int) -> int {
        self.gutter_text(y).len() as int
    }

    /// Whether a cell is lit as its row asks. On the cursor's row every
    /// cell is on the alternate background. On any other row the alternate
    /// background is that of the gutter and of the guide alone: every
    /// other cell is on the default background.
    pub open spec fn lit_by_row(self, cell: Cell) -> bool {
        if self.cursor_on(cell.y as int) {
            cell.background == self.alt_background
        } else {
            ||| cell.background == Color::Default
            ||| cell == self.guide_cell(cell.y as int)
            ||| cell == self.gutter_cell(cell.y as int, cell.x as int)
        }
    }

    /// Whether the pen of a canvas is where the text drawn so far has led
    /// it, and what is painted so far is as its rows ask. The text has led
    /// to the position `at`, a row and the number of characters on it:
    /// the pen is on that row, as many columns behind the gutter as the
    /// row holds characters, unless the right edge has stopped it; below
    /// the last row it rests. Every row down to the pen's has its guide.
    pub open spec fn follows(self, canvas: Canvas, at: (int, int)) -> bool {
        &&& 0 <= at.0 && 0 <= at.1
        &&& canvas.line == if at.0 < self.rows {
            at.0
        } else {
            self.rows as int
        }
        &&& at.0 < self.rows ==> if self.text_column(at.0) + at.1 <= self.width {
            canvas.x == self.text_column(at.0) + at.1
        } else {
            canvas.x >= self.width
        }
        &&& forall|i: int| 0 <= i < canvas.cells.len() ==> self.lit_by_row(#[trigger] canvas.cells[i])
        &&& LINE_LENGTH_GUIDE_OFFSET < self.width ==> forall|row: int|
            0 <= row <= canvas.line && row < self.rows ==> canvas.cells.contains(
                #[trigger] self.guide_cell(row),
            )
    }
}

/// The position that one more character leads to.
pub open spec fn step(at: (int, int), character: char) -> (int, int) {
    if character == '\n' {
        (at.0 + 1, 0)
    } else {
        (at.0, at.1 + 1)
    }
}

/// What a sequence of cells holds, it still holds with more cells behind
/// it.
pub proof fn lemma_begins_with_contains(cells: Seq<Cell>, start: Seq<Cell>, cell: Cell)
    requires
        begins_with(cells, start),
        start.contains(cell),
    ensures
        cells.contains(cell),
{
    let i = choose|i: int| 0 <= i < start.len() && start[i] == cell;
    assert(cells[i] == cell);
}

/// The cells that open a row are lit as the row asks, and the guide is
/// among them where the terminal is wide enough for it.
pub proof fn lemma_opening_cells(layout: Layout, y: int)
    requires
        0 <= y < layout.rows,
    ensures
        forall|i: int|
            0 <= i < layout.opening_cells(y).len() ==> layout.lit_by_row(
                #[trigger] layout.opening_cells(y)[i],
            ),
        LINE_LENGTH_GUIDE_OFFSET < layout.width ==> layout.opening_cells(y).contains(
            layout.guide_cell(y),
        ),
{
    let cells = layout.opening_cells(y);
    assert forall|i: int| 0 <= i < cells.len() implies layout.lit_by_row(#[trigger] cells[i]) by {
        if i < layout.gutter_cells(y).len() {
            assert(cells[i] == layout.gutter_cell(y, i));
        } else {
            assert(cells[i] == layout.guide_cell(y));
        }
    }
    if LINE_LENGTH_GUIDE_OFFSET < layout.width {
        assert(cells[cells.len() - 1] == layout.guide_cell(y));
    }
}

/// One more character keeps the pen on the track of the text and the
/// painting as its rows ask, and takes nothing back that is painted. A
/// character that is no line break, on a row of the window and at a
/// column of the terminal, is painted last: at its row, and as many
/// columns behind the gutter as characters precede it on the row.
pub proof fn lemma_put(layout: Layout, canvas: Canvas, at: (int, int), character: char, color: Color)
    requires
        layout.follows(canvas, at),
    ensures
        layout.follows(layout.put(canvas, character, color), step(at, character)),
        begins_with(layout.put(canvas, character, color).cells, canvas.cells),
        character != '\n' && at.0 < layout.rows && layout.text_column(at.0) + at.1 < layout.width
            ==> layout.put(canvas, character, color).cells.len() == canvas.cells.len() + 1
            && layout.put(canvas, character, color).cells.last() == layout.glyph_cell(
            at.0,
            layout.text_column(at.0) + at.1,
            character,
            color,
        ),
{
    let after = layout.put(canvas, character, color);
    let next = step(at, character);
    if canvas.line >= layout.rows {
    } else if character == '\n' {
        let fill = layout.filling_cells(
            canvas.line,
            canvas.x,
            layout.style_at(canvas.line, canvas.x),
        );
        let completed = if layout.cursor_on(canvas.line) {
            canvas.cells + fill
        } else {
            canvas.cells
        };
        assert forall|i: int| 0 <= i < completed.len() implies layout.lit_by_row(
            #[trigger] completed[i],
        ) by {
            if i >= canvas.cells.len() {
                assert(completed[i] == fill[i - canvas.cells.len()]);
            }
        }
        if canvas.line + 1 < layout.rows {
            let opening = layout.opening_cells(canvas.line + 1);
            lemma_opening_cells(layout, canvas.line + 1);
            assert forall|i: int| 0 <= i < after.cells.len() implies layout.lit_by_row(
                #[trigger] after.cells[i],
            ) by {
                if i >= completed.len() {
                    assert(after.cells[i] == opening[i - completed.len()]);
                } else {
                    assert(after.cells[i] == completed[i]);
                }
            }
            if LINE_LENGTH_GUIDE_OFFSET < layout.width {
                assert forall|row: int| 0 <= row <= after.line && row < layout.rows implies after.cells.contains(
                    #[trigger] layout.guide_cell(row),
                ) by {
                    if row <= canvas.line {
                        assert(begins_with(after.cells, canvas.cells));
                        lemma_begins_with_contains(after.cells, canvas.cells, layout.guide_cell(row));
                    } else {
                        let k = choose|k: int|
                            0 <= k < opening.len() && opening[k] == layout.guide_cell(row);
                        assert(after.cells[completed.len() + k] == layout.guide_cell(row));
                    }
                }
            }
        } else {
            if LINE_LENGTH_GUIDE_OFFSET < layout.width {
                assert forall|row: int| 0 <= row <= after.line && row < layout.rows implies after.cells.contains(
                    #[trigger] layout.guide_cell(row),
                ) by {
                    assert(begins_with(after.cells, canvas.cells));
                    lemma_begins_with_contains(after.cells, canvas.cells, layout.guide_cell(row));
                }
            }
        }
    } else if canvas.x < layout.width {
        assert forall|i: int| 0 <= i < after.cells.len() implies layout.lit_by_row(
            #[trigger] after.cells[i],
        ) by {
            if i < canvas.cells.len() {
                assert(after.cells[i] == canvas.cells[i]);
            }
        }
        if LINE_LENGTH_GUIDE_OFFSET < layout.width {
            assert forall|row: int| 0 <= row <= after.line && row < layout.rows implies after.cells.contains(
                #[trigger] layout.guide_cell(row),
            ) by {
                assert(begins_with(after.cells, canvas.cells));
                lemma_begins_with_contains(after.cells, canvas.cells, layout.guide_cell(row));
            }
        }
    } else {
    }
}

/// The characters of a lexeme keep the pen on the track of the text, and
/// take nothing back that is painted.
pub proof fn lemma_put_lexeme(
    layout: Layout,
    canvas: Canvas,
    at: (int, int),
    lexeme: Seq<char>,
    color: Color,
)
    requires
        layout.follows(canvas, at),
    ensures
        layout.follows(layout.put_lexeme(canvas, lexeme, color), advance(at, lexeme)),
        begins_with(layout.put_lexeme(canvas, lexeme, color).cells, canvas.cells),
    decreases lexeme.len(),
{
    if lexeme.len() > 0 {
        lemma_put_lexeme(layout, canvas, at, lexeme.drop_last(), color);
        lemma_put(
            layout,
            layout.put_lexeme(canvas, lexeme.drop_last(), color),
            advance(at, lexeme.drop_last()),
            lexeme.last(),
            color,
        );
    }
}

/// What is painted after part of a lexeme stays as the rest is painted.
pub proof fn lemma_put_lexeme_grows(
    layout: Layout,
    canvas: Canvas,
    at: (int, int),
    lexeme: Seq<char>,
    color: Color,
    part: int,
)
    requires
        layout.follows(canvas, at),
        0 <= part <= lexeme.len(),
    ensures
        begins_with(
            layout.put_lexeme(canvas, lexeme, color).cells,
            layout.put_lexeme(canvas, lexeme.take(part), color).cells,
        ),
    decreases lexeme.len() - part,
{
    if part == lexeme.len() {
        assert(lexeme.take(part) =~= lexeme);
    } else {
        lemma_put_lexeme_grows(layout, canvas, at, lexeme, color, part + 1);
        lemma_put_lexeme(layout, canvas, at, lexeme.take(part), color);
        assert(lexeme.take(part + 1).drop_last() =~= lexeme.take(part));
        lemma_put(
            layout,
            layout.put_lexeme(canvas, lexeme.take(part), color),
            advance(at, lexeme.take(part)),
            lexeme[part],
            color,
        );
    }
}

/// After the first `count` tokens the pen is where their text has led it.
pub proof fn lemma_put_tokens(layout: Layout, tokens: Seq<TokenView>, count: int)
    requires
        0 <= count,
    ensures
        layout.follows(layout.put_tokens(tokens, count), token_start(tokens, count)),
    decreases count,
{
    if count == 0 {
        if 0 < layout.rows {
            lemma_opening_cells(layout, 0);
        }
    } else {
        lemma_put_tokens(layout, tokens, count - 1);
        lemma_put_lexeme(
            layout,
            layout.put_tokens(tokens, count - 1),
            token_start(tokens, count - 1),
            tokens[count - 1].lexeme,
            color_of(tokens[count - 1].category),
        );
    }
}

/// What is painted after some tokens stays as more tokens are painted.
pub proof fn lemma_put_tokens_grows(layout: Layout, tokens: Seq<TokenView>, some: int, count: int)
    requires
        0 <= some <= count,
    ensures
        begins_with(layout.put_tokens(tokens, count).cells, layout.put_tokens(tokens, some).cells),
    decreases count - some,
{
    if some < count {
        lemma_put_tokens_grows(layout, tokens, some, count - 1);
        lemma_put_tokens(layout, tokens, count - 1);
        lemma_put_lexeme(
            layout,
            layout.put_tokens(tokens, count - 1),
            token_start(tokens, count - 1),
            tokens[count - 1].lexeme,
            color_of(tokens[count - 1].category),
        );
    }
}

/// Every row that the text reaches within the window has its guide, where
/// the terminal is wide enough for one; and the alternate background is
/// on the cursor's row, on the gutter and on the guide, and nowhere else.
pub proof fn lemma_rows_are_lit(layout: Layout, tokens: Seq<TokenView>)
    ensures
        forall|i: int|
            0 <= i < layout.drawn(tokens).len() ==> layout.lit_by_row(
                #[trigger] layout.drawn(tokens)[i],
            ),
        LINE_LENGTH_GUIDE_OFFSET < layout.width ==> forall|row: int|
            0 <= row <= token_start(tokens, tokens.len() as int).0 && row < layout.rows
                ==> layout.drawn(tokens).contains(#[trigger] layout.guide_cell(row)),
{
    let n = tokens.len() as int;
    let canvas = layout.put_tokens(tokens, n);
    let drawn = layout.drawn(tokens);
    lemma_put_tokens(layout, tokens, n);
    assert forall|i: int| 0 <= i < drawn.len() implies layout.lit_by_row(#[trigger] drawn[i]) by {
        if i >= canvas.cells.len() {
            let fill = layout.filling_cells(canvas.line, canvas.x, crate::view::color::Style::Normal);
            assert(drawn[i] == fill[i - canvas.cells.len()]);
        } else {
            assert(drawn[i] == canvas.cells[i]);
        }
    }
    if LINE_LENGTH_GUIDE_OFFSET < layout.width {
        assert forall|row: int|
            0 <= row <= token_start(tokens, n).0 && row < layout.rows implies drawn.contains(
            #[trigger] layout.guide_cell(row),
        ) by {
            assert(begins_with(drawn, canvas.cells));
            lemma_begins_with_contains(drawn, canvas.cells, layout.guide_cell(row));
        }
    }
}

/// Every character that is no line break, on a row of the window and at
/// a column of the terminal, is drawn: character `j` of token `i`, which
/// the text before it puts on row `r` behind `o` other characters, stands
/// on row `r` at the column `o` behind the gutter, in its token's color.
pub proof fn lemma_characters_are_drawn(layout: Layout, tokens: Seq<TokenView>, i: int, j: int)
    requires
        0 <= i < tokens.len(),
        0 <= j < tokens[i].lexeme.len(),
        tokens[i].lexeme[j] != '\n',
    ensures
        ({
            let at = advance(token_start(tokens, i), tokens[i].lexeme.take(j));
            at.0 < layout.rows && layout.text_column(at.0) + at.1 < layout.width
                ==> layout.drawn(tokens).contains(
                layout.glyph_cell(
                    at.0,
                    layout.text_column(at.0) + at.1,
                    tokens[i].lexeme[j],
                    color_of(tokens[i].category),
                ),
            )
        }),
{
    let n = tokens.len() as int;
    let lexeme = tokens[i].lexeme;
    let color = color_of(tokens[i].category);
    let start = layout.put_tokens(tokens, i);
    let origin = token_start(tokens, i);
    let at = advance(origin, lexeme.take(j));
    if at.0 < layout.rows && layout.text_column(at.0) + at.1 < layout.width {
        let cell = layout.glyph_cell(at.0, layout.text_column(at.0) + at.1, lexeme[j], color);
        lemma_put_tokens(layout, tokens, i);
        lemma_put_lexeme(layout, start, origin, lexeme.take(j), color);
        let before = layout.put_lexeme(start, lexeme.take(j), color);
        lemma_put(layout, before, at, lexeme[j], color);
        let painted = layout.put(before, lexeme[j], color);
        assert(lexeme.take(j + 1).drop_last() =~= lexeme.take(j));
        assert(painted == layout.put_lexeme(start, lexeme.take(j + 1), color));
        assert(painted.cells[painted.cells.len() - 1] == cell);
        assert(painted.cells.contains(cell));
        lemma_put_lexeme_grows(layout, start, origin, lexeme, color, j + 1);
        let whole = layout.put_lexeme(start, lexeme, color);
        lemma_begins_with_contains(whole.cells, painted.cells, cell);
        assert(whole == layout.put_tokens(tokens, i + 1));
        lemma_put_tokens_grows(layout, tokens, i + 1, n);
        let last = layout.put_tokens(tokens, n);
        lemma_begins_with_contains(last.cells, whole.cells, cell);
        assert(begins_with(layout.drawn(tokens), last.cells));
        lemma_begins_with_contains(layout.drawn(tokens), last.cells, cell);
    }
}

} // verus!

//! Presenters: from buffer, mode and viewport to what the terminal shows.
pub mod buffer;
pub mod modes;

use vstd::prelude::*;
use crate::buffer::line_range::LineRange;
use crate::buffer::position::Position;
use crate::buffer::range::Range;
use crate::helpers::token::{advance, token_start};
use crate::models::application::Mode;
use crate::storage::{BufferState, buffer_modified, buffer_path, buffer_state, is_modified};
use crate::text::{line_total, newline_count};
use crate::token::{Token, TokenView, token_views};
use crate::view::scrollable_region::ScrollableRegion;
use crate::view::terminal::Screen;

verus! {

/// The characters of a lexeme that lie on the lines from `start` up to,
/// and without, `end`, for a lexeme that begins on line `line`. A line
/// break belongs to the line that it ends.
pub open spec fn kept(lexeme: Seq<char>, line: int, start: int, end: int) -> Seq<char>
    decreases lexeme.len(),
{
    if lexeme.len() == 0 {
        Seq::empty()
    } else {
        let before = kept(lexeme.drop_last(), line, start, end);
        let at = line + newline_count(lexeme.drop_last());
        if start <= at < end {
            before.push(lexeme.last())
        } else {
            before
        }
    }
}

/// The line on which token `i` begins: the number of line breaks in the
/// tokens before it.
pub open spec fn line_of(tokens: Seq<TokenView>, i: int) -> int {
    token_start(tokens, i).0
}

/// What is in sight of the first `count` tokens: each token cut down to
/// its characters on the lines from `start` up to `end`, and the tokens
/// left out of which nothing remains.
pub open spec fn visible(tokens: Seq<TokenView>, count: int, start: int, end: int) -> Seq<
    TokenView,
>
    decreases count,
{
    if count <= 0 {
        Seq::empty()
    } else {
        let before = visible(tokens, count - 1, start, end);
        let part = kept(tokens[count - 1].lexeme, line_of(tokens, count - 1), start, end);
        if part.len() > 0 {
            before.push(TokenView { lexeme: part, category: tokens[count - 1].category })
        } else {
            before
        }
    }
}

/// A lexeme ends as many lines below its start as it holds line breaks.
pub proof fn lemma_advance_lines(from: (int, int), lexeme: Seq<char>)
    ensures
        advance(from, lexeme).0 == from.0 + newline_count(lexeme),
    decreases lexeme.len(),
{
    if lexeme.len() > 0 {
        lemma_advance_lines(from, lexeme.drop_last());
    }
}

/// What is kept of a lexeme is part of it: no longer than the lexeme, and
/// the whole lexeme where all of its lines are in sight.
pub proof fn lemma_kept_bounds(lexeme: Seq<char>, line: int, start: int, end: int)
    requires
        0 <= line,
    ensures
        kept(lexeme, line, start, end).len() <= lexeme.len(),
        start <= line && line + newline_count(lexeme) < end ==> kept(lexeme, line, start, end)
            == lexeme,
        end <= line || line + newline_count(lexeme) < start ==> kept(lexeme, line, start, end).len()
            == 0,
    decreases lexeme.len(),
{
    if lexeme.len() > 0 {
        lemma_kept_bounds(lexeme.drop_last(), line, start, end);
        if start <= line && line + newline_count(lexeme) < end {
            assert(kept(lexeme, line, start, end) =~= lexeme);
        }
    }
}

/// What is in sight of tokens is part of them: all lexemes together are no
/// longer than before.
pub proof fn lemma_visible_length(tokens: Seq<TokenView>, count: int, start: int, end: int)
    requires
        0 <= count,
    ensures
        crate::token::joined_lexemes(
            visible(tokens, count, start, end),
            visible(tokens, count, start, end).len() as int,
        ).len() <= crate::token::joined_lexemes(tokens, count).len(),
    decreases count,
{
    if count > 0 {
        let before = visible(tokens, count - 1, start, end);
        let now = visible(tokens, count, start, end);
        lemma_visible_length(tokens, count - 1, start, end);
        crate::helpers::token::lemma_token_start_bound(tokens, count - 1);
        lemma_kept_bounds(tokens[count - 1].lexeme, line_of(tokens, count - 1), start, end);
        if now.len() > before.len() {
            crate::token::lemma_joined_prefix(now, before, before.len() as int);
        }
    }
}

/// Reduces tokens to what is in sight: the characters on the lines of the
/// visible range. Tokens that span several lines are cut at line breaks,
/// and tokens of which nothing is in sight are dropped.
pub fn visible_tokens(tokens: &Vec<Token>, visible_range: LineRange) -> (r: Vec<Token>)
    ensures
        token_views(r@) == visible(
            token_views(tokens@),
            tokens@.len() as int,
            visible_range.start() as int,
            visible_range.end() as int,
        ),
{
    let first: usize = visible_range.start();
    let last: usize = visible_range.end();
    let ghost views = token_views(tokens@);
    let mut visible_tokens: Vec<Token> = Vec::new();
    // The line that the scan is on, held at the end of the range: nothing
    // at or beyond the end of the range is in sight.
    let mut line: usize = 0;
    let mut i: usize = 0;
    proof {
        assert(token_views(visible_tokens@) =~= Seq::<TokenView>::empty());
    }
    while i < tokens.len()
        invariant
            i <= tokens.len(),
            views == token_views(tokens@),
            first == visible_range.start(),
            last == visible_range.end(),
            0 <= line_of(views, i as int),
            line == if line_of(views, i as int) < last {
                line_of(views, i as int)
            } else {
                last as int
            },
            token_views(visible_tokens@) == visible(views, i as int, first as int, last as int),
        decreases tokens.len() - i,
    {
        let token = &tokens[i];
        let ghost lexeme = tokens@[i as int].lexeme@;
        let ghost begin = line_of(views, i as int);
        let mut current_lexeme = String::new();
        proof {
            assert(views[i as int] == tokens@[i as int]@);
            assert(lexeme.take(0) =~= Seq::<char>::empty());
        }
        for character in it: token.lexeme.as_str().chars()
            invariant
                it.seq() == lexeme,
                0 <= begin,
                line == if begin + newline_count(lexeme.take(it.index() as int)) < last {
                    begin + newline_count(lexeme.take(it.index() as int))
                } else {
                    last as int
                },
                current_lexeme@ == kept(
                    lexeme.take(it.index() as int),
                    begin,
                    first as int,
                    last as int,
                ),
        {
            proof {
                let k = it.index() as int;
                assert(lexeme.take(k + 1).drop_last() =~= lexeme.take(k));
                assert(lexeme.take(k + 1).last() == character);
            }
            if line < last {
                // Use characters in the visible range.
                if line >= first {
                    current_lexeme.push(character);
                }
                // Handle newline characters.
                if character == '\n' {
                    line += 1;
                }
            }
        }
        proof {
            assert(lexeme.take(lexeme.len() as int) =~= lexeme);
            lemma_advance_lines(token_start(views, i as int), lexeme);
        }
        // Add visible lexemes to the token set.
        if current_lexeme.as_str().unicode_len() > 0 {
            let shown = Token { lexeme: current_lexeme, category: token.category };
            proof {
                assert(token_views(visible_tokens@.push(shown)) =~= token_views(
                    visible_tokens@,
                ).push(shown@));
            }
            visible_tokens.push(shown);
        }
        i += 1;
    }
    visible_tokens
}

/// Counts the lines of a text: one per line break, and one more for text
/// behind the last line break.
pub fn line_count(data: &str) -> (r: usize)
    ensures
        r == line_total(data@),
{
    let text = crate::text::chars_of(data);
    let breaks: usize = crate::text::count_newlines(&text);
    if text.len() == 0 {
        0
    } else if text[text.len() - 1] == '\n' {
        breaks
    } else {
        proof {
            assert(text@.drop_last().len() == text@.len() - 1);
            lemma_newlines_below_length(text@.drop_last());
        }
        breaks + 1
    }
}

/// A text has no more line breaks than characters.
pub proof fn lemma_newlines_below_length(text: Seq<char>)
    ensures
        newline_count(text) <= text.len(),
    decreases text.len(),
{
    if text.len() > 0 {
        lemma_newlines_below_length(text.drop_last());
    }
}

/// A position of the buffer as the window shows it: on its row where its
/// line is in sight, at the top edge where its line is above the window,
/// and at the bottom edge where its line is below.
pub open spec fn clipped(region: ScrollableRegion, position: Position) -> Position {
    if position.line < region.line_offset() {
        Position { line: 0, offset: 0 }
    } else if position.line - region.line_offset() >= region.height() {
        Position { line: region.height(), offset: 0 }
    } else {
        Position {
            line: (position.line - region.line_offset()) as usize,
            offset: position.offset,
        }
    }
}

/// Converts a position of the buffer to rows of the window, clipping it
/// to the window's edges.
pub fn relative_position(region: &ScrollableRegion, position: &Position) -> (r: Position)
    ensures
        r == clipped(*region, *position),
{
    if position.line < region.line_offset() {
        Position { line: 0, offset: 0 }
    } else if position.line - region.line_offset() >= region.height() {
        Position { line: region.height(), offset: 0 }
    } else {
        Position { line: position.line - region.line_offset(), offset: position.offset }
    }
}

/// Converts a range of the buffer to rows of the window. A range that
/// is only partly in sight is cut at the window's edges.
pub fn relative_range(region: &ScrollableRegion, range: &Range) -> (r: Range)
    ensures
        r == Range::new(clipped(*region, range.start()), clipped(*region, range.end())),
        r.start() == clipped(*region, range.start()),
        r.end() == clipped(*region, range.end()),
{
    let start = range.start();
    let end = range.end();
    Range::new(relative_position(region, &start), relative_position(region, &end))
}

/// What the status line says of a buffer: its path, and a mark where it
/// has unsaved changes.
pub open spec fn status_text(state: BufferState, modified: bool) -> Seq<char> {
    let path: Seq<char> = match state.path {
        Some(path) => path,
        None => Seq::empty(),
    };
    if modified {
        path + seq!['*']
    } else {
        path
    }
}

/// Builds what the status line says of a buffer.
pub fn buffer_status_line_data(buffer: &scribe::Buffer) -> (r: String)
    ensures
        r@ == status_text(buffer_state(*buffer), is_modified(*buffer)),
{
    let mut content = match buffer_path(buffer) {
        Some(path) => path,
        None => String::new(),
    };
    if buffer_modified(buffer) {
        proof {
            reveal_strlit("*");
            assert("*"@ =~= seq!['*']);
        }
        content.append("*");
    }
    content
}

/// Whether a screen is what a mode shows of a buffer through a view. Jump
/// mode and open mode draw in their own ways, and so does select line
/// mode; the exit mode draws nothing, and every other mode draws the
/// buffer under its status line.
pub open spec fn presented(
    r: Screen,
    buffer: Option<&scribe::Buffer>,
    before: &Mode,
    after: &Mode,
    view: &crate::view::View,
) -> bool {
    match *before {
        Mode::Jump(jump) => *after matches Mode::Jump(tagged) && modes::jump::displayed(
            r,
            buffer,
            &jump,
            &tagged,
            view,
        ),
        Mode::Open(open) => *after == *before && modes::open::displayed(r, buffer, &open, view),
        Mode::SelectLine(select) => *after == *before && modes::select_line::displayed(
            r,
            buffer,
            &select,
            view,
        ),
        Mode::Exit => *after == *before && r.cells@.len() == 0 && r.texts@.len() == 0
            && r.cursor is None,
        _ => *after == *before && modes::standard::displayed(r, buffer, before, view),
    }
}

/// Assembles what the terminal shows of the application's state. Jump
/// mode hands out its tags as it is drawn; no other mode changes.
pub fn present(buffer: Option<&scribe::Buffer>, mode: &mut Mode, view: &crate::view::View) -> (r:
    Screen)
    ensures
        presented(r, buffer, old(mode), final(mode), view),
{
    match mode {
        Mode::Jump(jump) => modes::jump::display(buffer, jump, view),
        Mode::Open(open) => modes::open::display(buffer, open, view),
        Mode::SelectLine(select) => modes::select_line::display(buffer, select, view),
        Mode::Exit => Screen { cells: Vec::new(), texts: Vec::new(), cursor: None },
        _ => modes::standard::display(buffer, mode, view),
    }
}

} // verus!

//! Token-aware movement: where the boundary of the next or previous token
//! lies with respect to the cursor.
use vstd::prelude::*;
use crate::buffer::position::Position;
use crate::storage::{buffer_data, buffer_state, cursor_position};
use crate::text::{is_whitespace, whitespace};
use crate::token::{Token, TokenView, joined_lexemes, lex, lexed, token_views};

verus! {

/// Which way a token search looks from the cursor.
#[derive(Clone, Copy, Debug, PartialEq, Eq, Structural)]
pub enum Direction {
    Forward,
    Backward,
}

/// A position as a pair of a line and an offset.
pub open spec fn coordinates(position: Position) -> (int, int) {
    (position.line as int, position.offset as int)
}

/// Document order on pairs of a line and an offset.
pub open spec fn comes_before(a: (int, int), b: (int, int)) -> bool {
    a.0 < b.0 || (a.0 == b.0 && a.1 < b.1)
}

/// Whether a lexeme is whitespace throughout.
pub open spec fn is_blank(lexeme: Seq<char>) -> bool {
    forall|i: int| 0 <= i < lexeme.len() ==> is_whitespace(#[trigger] lexeme[i])
}

/// The position reached from `from` after the characters of a lexeme: a
/// line break leads to the start of the next line, any other character one
/// offset to the right.
pub open spec fn advance(from: (int, int), lexeme: Seq<char>) -> (int, int)
    decreases lexeme.len(),
{
    if lexeme.len() == 0 {
        from
    } else {
        let before = advance(from, lexeme.drop_last());
        if lexeme.last() == '\n' {
            (before.0 + 1, 0)
        } else {
            (before.0, before.1 + 1)
        }
    }
}

/// Where token `i` starts, which is where the token before it ends. The
/// first token starts at the start of the buffer.
pub open spec fn token_start(tokens: Seq<TokenView>, i: int) -> (int, int)
    decreases i,
{
    if i <= 0 {
        (0, 0)
    } else {
        advance(token_start(tokens, i - 1), tokens[i - 1].lexeme)
    }
}

/// The boundary of token `i` that a search stops at: its end, or its start.
pub open spec fn boundary(tokens: Seq<TokenView>, i: int, stop_at_end: bool) -> (int, int) {
    if stop_at_end {
        token_start(tokens, i + 1)
    } else {
        token_start(tokens, i)
    }
}

/// Whether token `i` is one that a search may stop at: it is not whitespace
/// throughout, and its boundary lies strictly beyond the cursor in the
/// direction of the search.
pub open spec fn qualifies(
    tokens: Seq<TokenView>,
    i: int,
    cursor: Position,
    stop_at_end: bool,
    direction: Direction,
) -> bool {
    &&& 0 <= i < tokens.len()
    &&& !is_blank(tokens[i].lexeme)
    &&& match direction {
        Direction::Forward => comes_before(coordinates(cursor), boundary(tokens, i, stop_at_end)),
        Direction::Backward => comes_before(boundary(tokens, i, stop_at_end), coordinates(cursor)),
    }
}

/// The first token at or after index `from` that a forward search may stop
/// at.
pub open spec fn first_qualifying(
    tokens: Seq<TokenView>,
    cursor: Position,
    stop_at_end: bool,
    from: int,
) -> Option<int>
    decreases tokens.len() - from,
{
    if from < 0 || from >= tokens.len() {
        None
    } else if qualifies(tokens, from, cursor, stop_at_end, Direction::Forward) {
        Some(from)
    } else {
        first_qualifying(tokens, cursor, stop_at_end, from + 1)
    }
}

/// The last token before index `upto` that a backward search may stop at.
pub open spec fn last_qualifying(
    tokens: Seq<TokenView>,
    cursor: Position,
    stop_at_end: bool,
    upto: int,
) -> Option<int>
    decreases upto,
{
    if upto <= 0 {
        None
    } else if qualifies(tokens, upto - 1, cursor, stop_at_end, Direction::Backward) {
        Some(upto - 1)
    } else {
        last_qualifying(tokens, cursor, stop_at_end, upto - 1)
    }
}

/// The token that a search from the cursor stops at: the nearest one, in
/// the direction of the search, that qualifies.
pub open spec fn adjacent_token(
    tokens: Seq<TokenView>,
    cursor: Position,
    stop_at_end: bool,
    direction: Direction,
) -> Option<int> {
    match direction {
        Direction::Forward => first_qualifying(tokens, cursor, stop_at_end, 0),
        Direction::Backward => last_qualifying(tokens, cursor, stop_at_end, tokens.len() as int),
    }
}

/// The position that a search from the cursor yields: the boundary of the
/// token it stops at, or none where no token qualifies.
pub open spec fn adjacent_boundary(
    tokens: Seq<TokenView>,
    cursor: Position,
    stop_at_end: bool,
    direction: Direction,
) -> Option<(int, int)> {
    match adjacent_token(tokens, cursor, stop_at_end, direction) {
        Some(i) => Some(boundary(tokens, i, stop_at_end)),
        None => None,
    }
}

/// Whether an exec result is the position that a spec pair names.
pub open spec fn is_position(r: Option<Position>, expected: Option<(int, int)>) -> bool {
    match r {
        Some(p) => expected == Some(coordinates(p)),
        None => expected is None,
    }
}

/// The lexemes of more tokens join to a longer text.
pub proof fn lemma_joined_length(tokens: Seq<TokenView>, i: int, j: int)
    requires
        0 <= i <= j,
    ensures
        joined_lexemes(tokens, i).len() <= joined_lexemes(tokens, j).len(),
        i < j ==> joined_lexemes(tokens, i).len() + tokens[i].lexeme.len() <= joined_lexemes(
            tokens,
            j,
        ).len(),
    decreases j - i,
{
    if i < j {
        lemma_joined_length(tokens, i, j - 1);
    }
}

/// A position is never further from the start of the buffer than the
/// characters that lead to it are many.
pub proof fn lemma_advance_bound(from: (int, int), lexeme: Seq<char>)
    requires
        0 <= from.0,
        0 <= from.1,
    ensures
        0 <= advance(from, lexeme).0,
        0 <= advance(from, lexeme).1,
        advance(from, lexeme).0 + advance(from, lexeme).1 <= from.0 + from.1 + lexeme.len(),
        from.0 <= advance(from, lexeme).0,
        from == advance(from, lexeme) || comes_before(from, advance(from, lexeme)),
    decreases lexeme.len(),
{
    if lexeme.len() > 0 {
        lemma_advance_bound(from, lexeme.drop_last());
    }
}

/// A token starts no further from the start of the buffer than the
/// lexemes before it are long.
pub proof fn lemma_token_start_bound(tokens: Seq<TokenView>, i: int)
    requires
        0 <= i,
    ensures
        0 <= token_start(tokens, i).0,
        0 <= token_start(tokens, i).1,
        token_start(tokens, i).0 + token_start(tokens, i).1 <= joined_lexemes(tokens, i).len(),
    decreases i,
{
    if i > 0 {
        lemma_token_start_bound(tokens, i - 1);
        lemma_advance_bound(token_start(tokens, i - 1), tokens[i - 1].lexeme);
    }
}

/// A forward search stops at a token that qualifies, and no token before
/// it does; it yields none exactly when no token from `from` on qualifies.
pub proof fn lemma_first_qualifying(
    tokens: Seq<TokenView>,
    cursor: Position,
    stop_at_end: bool,
    from: int,
)
    requires
        0 <= from,
    ensures
        match first_qualifying(tokens, cursor, stop_at_end, from) {
            Some(i) => from <= i && qualifies(tokens, i, cursor, stop_at_end, Direction::Forward)
                && forall|j: int|
                from <= j < i ==> !qualifies(tokens, j, cursor, stop_at_end, Direction::Forward),
            None => forall|j: int|
                from <= j ==> !qualifies(tokens, j, cursor, stop_at_end, Direction::Forward),
        },
    decreases tokens.len() - from,
{
    if from < tokens.len() && !qualifies(tokens, from, cursor, stop_at_end, Direction::Forward) {
        lemma_first_qualifying(tokens, cursor, stop_at_end, from + 1);
    }
}

/// A backward search stops at a token that qualifies, and no token after
/// it does; it yields none exactly when no token before `upto` qualifies.
pub proof fn lemma_last_qualifying(
    tokens: Seq<TokenView>,
    cursor: Position,
    stop_at_end: bool,
    upto: int,
)
    ensures
        match last_qualifying(tokens, cursor, stop_at_end, upto) {
            Some(i) => i < upto && qualifies(tokens, i, cursor, stop_at_end, Direction::Backward)
                && forall|j: int|
                i < j < upto ==> !qualifies(tokens, j, cursor, stop_at_end, Direction::Backward),
            None => forall|j: int|
                j < upto ==> !qualifies(tokens, j, cursor, stop_at_end, Direction::Backward),
        },
    decreases upto,
{
    if upto > 0 && !qualifies(tokens, upto - 1, cursor, stop_at_end, Direction::Backward) {
        lemma_last_qualifying(tokens, cursor, stop_at_end, upto - 1);
    }
}

/// A search never yields the cursor's own position: what it yields lies
/// strictly beyond the cursor, in the direction of the search.
pub proof fn lemma_adjacent_boundary_beyond_cursor(
    tokens: Seq<TokenView>,
    cursor: Position,
    stop_at_end: bool,
    direction: Direction,
)
    ensures
        adjacent_boundary(tokens, cursor, stop_at_end, direction) matches Some(p) ==> match direction {
            Direction::Forward => comes_before(coordinates(cursor), p),
            Direction::Backward => comes_before(p, coordinates(cursor)),
        },
{
    lemma_first_qualifying(tokens, cursor, stop_at_end, 0);
    lemma_last_qualifying(tokens, cursor, stop_at_end, tokens.len() as int);
}

/// Walks over a lexeme from the position where it starts: yields the
/// position where it ends, and whether it is whitespace throughout.
pub fn scan_lexeme(lexeme: &str, start: Position) -> (r: (Position, bool))
    requires
        start.line + start.offset + lexeme@.len() <= usize::MAX,
    ensures
        coordinates(r.0) == advance(coordinates(start), lexeme@),
        r.1 == is_blank(lexeme@),
{
    let mut line: usize = start.line;
    let mut offset: usize = start.offset;
    let mut blank: bool = true;
    proof {
        assert(lexeme@.take(0) =~= Seq::<char>::empty());
    }
    for c in it: lexeme.chars()
        invariant
            it.seq() == lexeme@,
            (line as int, offset as int) == advance(
                coordinates(start),
                lexeme@.take(it.index() as int),
            ),
            line + offset <= start.line + start.offset + it.index(),
            start.line + start.offset + lexeme@.len() <= usize::MAX,
            blank == is_blank(lexeme@.take(it.index() as int)),
    {
        proof {
            let i = it.index() as int;
            let next = lexeme@.take(i + 1);
            assert(next.drop_last() =~= lexeme@.take(i));
            assert(next.last() == lexeme@[i]);
            if is_blank(lexeme@.take(i)) && is_whitespace(c) {
                assert forall|j: int| 0 <= j < next.len() implies is_whitespace(
                    #[trigger] next[j],
                ) by {
                    if j < i {
                        assert(next[j] == lexeme@.take(i)[j]);
                    }
                }
            } else if !is_blank(lexeme@.take(i)) {
                let j = choose|j: int|
                    0 <= j < lexeme@.take(i).len() && !is_whitespace(
                        #[trigger] lexeme@.take(i)[j],
                    );
                assert(next[j] == lexeme@.take(i)[j]);
            } else {
                assert(!is_whitespace(next[i]));
            }
        }
        if c == '\n' {
            line += 1;
            offset = 0;
        } else {
            offset += 1;
        }
        if !whitespace(c) {
            blank = false;
        }
    }
    proof {
        assert(lexeme@.take(lexeme@.len() as int) =~= lexeme@);
    }
    (Position { line, offset }, blank)
}

/// Searches the tokens for the boundary next to the cursor: forward for
/// the first token that is not whitespace and whose boundary lies after
/// the cursor, backward for the last such token whose boundary lies before
/// it. The boundary is the token's end where `stop_at_end` is set, and its
/// start where it is not.
pub fn token_boundary(
    tokens: &Vec<Token>,
    cursor: Position,
    stop_at_end: bool,
    direction: Direction,
) -> (r: Option<Position>)
    requires
        joined_lexemes(token_views(tokens@), tokens@.len() as int).len() <= usize::MAX,
    ensures
        is_position(r, adjacent_boundary(token_views(tokens@), cursor, stop_at_end, direction)),
{
    let ghost views = token_views(tokens@);
    let mut start = Position { line: 0, offset: 0 };
    let mut found: Option<Position> = None;
    let mut i: usize = 0;
    while i < tokens.len()
        invariant
            i <= tokens.len(),
            views == token_views(tokens@),
            joined_lexemes(views, tokens@.len() as int).len() <= usize::MAX,
            coordinates(start) == token_start(views, i as int),
            direction == Direction::Forward ==> found is None && first_qualifying(
                views,
                cursor,
                stop_at_end,
                0,
            ) == first_qualifying(views, cursor, stop_at_end, i as int),
            direction == Direction::Backward ==> match last_qualifying(
                views,
                cursor,
                stop_at_end,
                i as int,
            ) {
                Some(k) => found matches Some(p) && coordinates(p) == boundary(
                    views,
                    k,
                    stop_at_end,
                ),
                None => found is None,
            },
        decreases tokens.len() - i,
    {
        proof {
            lemma_token_start_bound(views, i as int);
            lemma_joined_length(views, i as int, tokens@.len() as int);
            assert(views[i as int] == tokens@[i as int]@);
        }
        let (end, blank) = scan_lexeme(tokens[i].lexeme.as_str(), start);
        let edge = if stop_at_end {
            end
        } else {
            start
        };
        proof {
            assert(coordinates(end) == token_start(views, i + 1));
            assert(coordinates(edge) == boundary(views, i as int, stop_at_end));
        }
        match direction {
            Direction::Forward => {
                if !blank && cursor.is_before(&edge) {
                    return Some(edge);
                }
            },
            Direction::Backward => {
                if !blank && edge.is_before(&cursor) {
                    found = Some(edge);
                }
            },
        }
        start = end;
        i += 1;
    }
    found
}

/// The position next to the cursor of a buffer at which a token begins or
/// ends, among the tokens that the lexer makes of the buffer's text.
pub fn adjacent_token_position(
    buffer: &scribe::Buffer,
    stop_at_end: bool,
    direction: Direction,
) -> (r: Option<Position>)
    ensures
        is_position(
            r,
            adjacent_boundary(
                lexed(buffer_state(*buffer).text),
                buffer_state(*buffer).cursor,
                stop_at_end,
                direction,
            ),
        ),
{
    let data = buffer_data(buffer);
    let length: usize = data.as_str().unicode_len();
    let tokens = lex(data.as_str());
    proof {
        crate::token::lemma_lexed_covers(data@);
    }
    token_boundary(&tokens, cursor_position(buffer), stop_at_end, direction)
}

} // verus!

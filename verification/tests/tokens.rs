use amp::buffer::Position;
use amp::helpers::token::{adjacent_token_position, scan_lexeme, token_boundary, Direction};
use amp::token::{Category, Token};
use scribe::Buffer;

fn token(lexeme: &str, category: Category) -> Token {
    Token { lexeme: lexeme.to_string(), category }
}

fn sample() -> Vec<Token> {
    vec![
        token("\n", Category::Whitespace),
        token("amp", Category::Text),
        token(" ", Category::Whitespace),
        token("editor", Category::Text),
    ]
}

fn at(line: usize, offset: usize) -> Position {
    Position { line, offset }
}

#[test]
fn scan_lexeme_follows_line_breaks() {
    assert_eq!(scan_lexeme("amp", at(2, 5)), (at(2, 8), false));
    assert_eq!(scan_lexeme(" \n  ", at(2, 5)), (at(3, 2), true));
    assert_eq!(scan_lexeme("a\nb\n", at(0, 0)), (at(2, 0), false));
    assert_eq!(scan_lexeme("", at(4, 4)), (at(4, 4), true));
    assert_eq!(scan_lexeme("é\u{2003}", at(0, 0)), (at(0, 2), false));
}

#[test]
fn previous_token_from_within_a_token_is_its_own_start() {
    assert_eq!(token_boundary(&sample(), at(1, 2), false, Direction::Backward), Some(at(1, 0)));
    assert_eq!(token_boundary(&sample(), at(1, 7), false, Direction::Backward), Some(at(1, 4)));
}

#[test]
fn previous_token_skips_whitespace() {
    assert_eq!(token_boundary(&sample(), at(1, 4), false, Direction::Backward), Some(at(1, 0)));
    assert_eq!(token_boundary(&sample(), at(1, 3), false, Direction::Backward), Some(at(1, 0)));
}

#[test]
fn previous_token_before_the_first_token_is_none() {
    assert_eq!(token_boundary(&sample(), at(1, 0), false, Direction::Backward), None);
    assert_eq!(token_boundary(&sample(), at(0, 0), false, Direction::Backward), None);
}

#[test]
fn next_token_is_the_first_start_after_the_cursor() {
    assert_eq!(token_boundary(&sample(), at(1, 0), false, Direction::Forward), Some(at(1, 4)));
    assert_eq!(token_boundary(&sample(), at(0, 0), false, Direction::Forward), Some(at(1, 0)));
    assert_eq!(token_boundary(&sample(), at(1, 3), false, Direction::Forward), Some(at(1, 4)));
    assert_eq!(token_boundary(&sample(), at(1, 4), false, Direction::Forward), None);
}

#[test]
fn end_of_current_token_is_the_first_end_after_the_cursor() {
    assert_eq!(token_boundary(&sample(), at(1, 0), true, Direction::Forward), Some(at(1, 3)));
    assert_eq!(token_boundary(&sample(), at(1, 3), true, Direction::Forward), Some(at(1, 10)));
    assert_eq!(token_boundary(&sample(), at(1, 9), true, Direction::Forward), Some(at(1, 10)));
    assert_eq!(token_boundary(&sample(), at(1, 10), true, Direction::Forward), None);
}

#[test]
fn end_of_previous_token_is_the_last_end_before_the_cursor() {
    assert_eq!(token_boundary(&sample(), at(1, 5), true, Direction::Backward), Some(at(1, 3)));
    assert_eq!(token_boundary(&sample(), at(1, 3), true, Direction::Backward), None);
}

#[test]
fn no_tokens_no_boundary() {
    let none: Vec<Token> = Vec::new();
    assert_eq!(token_boundary(&none, at(0, 0), false, Direction::Forward), None);
    assert_eq!(token_boundary(&none, at(3, 3), true, Direction::Backward), None);
    let blank = vec![token("  \n ", Category::Whitespace)];
    assert_eq!(token_boundary(&blank, at(0, 0), false, Direction::Forward), None);
    assert_eq!(token_boundary(&blank, at(1, 1), false, Direction::Backward), None);
}

#[test]
fn tokens_over_several_lines_are_followed() {
    let tokens = vec![
        token("/* a\n b */", Category::Comment),
        token("\n", Category::Whitespace),
        token("fn", Category::Keyword),
    ];
    assert_eq!(token_boundary(&tokens, at(0, 2), true, Direction::Forward), Some(at(1, 5)));
    assert_eq!(token_boundary(&tokens, at(0, 2), false, Direction::Forward), Some(at(2, 0)));
    assert_eq!(token_boundary(&tokens, at(2, 1), false, Direction::Backward), Some(at(2, 0)));
    assert_eq!(token_boundary(&tokens, at(2, 0), false, Direction::Backward), Some(at(0, 0)));
}

#[test]
fn adjacent_token_position_lexes_the_buffer() {
    let mut buffer = Buffer::new();
    buffer.insert("\namp editor");
    assert!(buffer.cursor.move_to(scribe::buffer::Position { line: 1, offset: 0 }));
    assert_eq!(adjacent_token_position(&buffer, false, Direction::Forward), Some(at(1, 4)));
    assert_eq!(adjacent_token_position(&buffer, true, Direction::Forward), Some(at(1, 3)));
    assert_eq!(adjacent_token_position(&buffer, false, Direction::Backward), None);
    assert!(buffer.cursor.move_to(scribe::buffer::Position { line: 1, offset: 6 }));
    assert_eq!(adjacent_token_position(&buffer, false, Direction::Backward), Some(at(1, 4)));
}

fn runs(text: &str) -> Vec<Token> {
    let mut tokens: Vec<Token> = Vec::new();
    for c in text.chars() {
        let separator = c == ' ' || c == '\n';
        let joins = match tokens.last() {
            Some(last) => (last.category == Category::Whitespace) == separator,
            None => false,
        };
        if joins {
            tokens.last_mut().unwrap().lexeme.push(c);
        } else {
            let category = if separator { Category::Whitespace } else { Category::Text };
            tokens.push(Token { lexeme: c.to_string(), category });
        }
    }
    tokens
}

#[test]
fn the_tokens_of_a_buffer_are_its_runs() {
    let samples = [
        "",
        "amp",
        " ",
        "\n",
        "\namp editor",
        "  amp\n\n editor  ",
        "a\tb c",
        "fn main() {\n    let x = 1;\n}\n",
        "é ü\n\u{301}",
    ];
    for sample in samples.iter() {
        let mut buffer = Buffer::new();
        buffer.insert(*sample);
        let drawable = amp::presenters::buffer::data(Some(&buffer), &amp::models::application::Mode::Normal);
        assert_eq!(drawable.tokens, Some(runs(sample)), "tokens of {:?}", sample);
    }
}

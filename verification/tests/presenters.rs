use amp::buffer::{LineRange, Position, Range};
use amp::models::application::modes::{InsertMode, SelectLineMode, SelectMode};
use amp::models::application::Mode;
use amp::presenters::buffer::data;
use amp::presenters::{
    buffer_status_line_data, line_count, relative_position, relative_range, visible_tokens,
};
use amp::token::{Category, Token};
use amp::view::color::Color;
use amp::view::scrollable_region::ScrollableRegion;
use scribe::Buffer;

fn token(lexeme: &str, category: Category) -> Token {
    Token { lexeme: lexeme.to_string(), category }
}

fn at(line: usize, offset: usize) -> Position {
    Position { line, offset }
}

#[test]
fn visible_tokens_keeps_what_is_on_the_lines_in_sight() {
    let tokens = vec![
        token("first", Category::Text),
        token("\n", Category::Whitespace),
        token("second", Category::Keyword),
        token("\n", Category::Whitespace),
        token("third", Category::Text),
        token("\n", Category::Whitespace),
        token("fourth", Category::Text),
    ];
    assert_eq!(
        visible_tokens(&tokens, LineRange::new(1, 3)),
        vec![
            token("second", Category::Keyword),
            token("\n", Category::Whitespace),
            token("third", Category::Text),
            token("\n", Category::Whitespace),
        ]
    );
    assert_eq!(visible_tokens(&tokens, LineRange::new(0, 9)), tokens);
    assert_eq!(visible_tokens(&tokens, LineRange::new(4, 9)), Vec::<Token>::new());
    assert_eq!(visible_tokens(&tokens, LineRange::new(2, 2)), Vec::<Token>::new());
    assert_eq!(
        visible_tokens(&tokens, LineRange::new(3, usize::MAX)),
        vec![token("fourth", Category::Text)]
    );
}

#[test]
fn visible_tokens_splits_tokens_at_line_breaks() {
    let tokens = vec![
        token("a", Category::Text),
        token("/* one\ntwo\nthree */", Category::Comment),
        token("\nb", Category::Text),
    ];
    assert_eq!(
        visible_tokens(&tokens, LineRange::new(1, 2)),
        vec![token("two\n", Category::Comment)]
    );
    assert_eq!(
        visible_tokens(&tokens, LineRange::new(2, 4)),
        vec![token("three */", Category::Comment), token("\nb", Category::Text)]
    );
    assert_eq!(
        visible_tokens(&tokens, LineRange::new(0, 1)),
        vec![token("a", Category::Text), token("/* one\n", Category::Comment)]
    );
}

#[test]
fn line_count_counts_lines() {
    assert_eq!(line_count(""), 0);
    assert_eq!(line_count("amp"), 1);
    assert_eq!(line_count("amp\n"), 1);
    assert_eq!(line_count("amp\neditor"), 2);
    assert_eq!(line_count("\n\n"), 2);
    for sample in ["", "a", "a\nb\n", "\n", "a\r\nb", "\n\nx"].iter() {
        assert_eq!(line_count(sample), sample.lines().count());
    }
}

#[test]
fn relative_positions_are_clipped_to_the_window() {
    let region = ScrollableRegion::at(10, 5);
    assert_eq!(relative_position(&region, &at(7, 3)), at(2, 3));
    assert_eq!(relative_position(&region, &at(5, 0)), at(0, 0));
    assert_eq!(relative_position(&region, &at(2, 3)), at(0, 0));
    assert_eq!(relative_position(&region, &at(15, 3)), at(10, 0));
    assert_eq!(relative_position(&region, &at(14, 3)), at(9, 3));
}

#[test]
fn relative_ranges_are_clipped_to_the_window() {
    let region = ScrollableRegion::at(10, 5);
    assert_eq!(
        relative_range(&region, &Range::new(at(6, 2), at(8, 1))),
        Range::new(at(1, 2), at(3, 1))
    );
    assert_eq!(
        relative_range(&region, &Range::new(at(2, 2), at(8, 1))),
        Range::new(at(0, 0), at(3, 1))
    );
    assert_eq!(
        relative_range(&region, &Range::new(at(6, 2), at(80, 1))),
        Range::new(at(1, 2), at(10, 0))
    );
    assert_eq!(
        relative_range(&region, &Range::new(at(1, 2), at(3, 1))),
        Range::new(at(0, 0), at(0, 0))
    );
}

#[test]
fn data_without_a_buffer_is_empty() {
    let drawable = data(None, &Mode::Normal);
    assert_eq!(drawable.buffer_id, 0);
    assert!(drawable.tokens.is_none());
    assert!(drawable.cursor.is_none());
    assert!(drawable.highlight.is_none());
    assert_eq!(drawable.line_count, 0);
    assert_eq!(drawable.status_line.content, "");
    assert_eq!(drawable.status_line.color, None);
}

#[test]
fn data_shows_the_tokens_and_the_cursor_of_the_buffer() {
    let mut buffer = Buffer::new();
    buffer.insert("amp editor\nlib");
    buffer.id = Some(3);
    buffer.path = Some(std::path::PathBuf::from("src/lib.rs"));
    assert!(buffer.cursor.move_to(scribe::buffer::Position { line: 1, offset: 2 }));
    let drawable = data(Some(&buffer), &Mode::Normal);
    assert_eq!(drawable.buffer_id, 3);
    assert_eq!(
        drawable.tokens,
        Some(vec![
            token("amp", Category::Text),
            token(" ", Category::Whitespace),
            token("editor", Category::Text),
            token("\n", Category::Whitespace),
            token("lib", Category::Text),
        ])
    );
    assert_eq!(drawable.cursor, Some(at(1, 2)));
    assert_eq!(drawable.highlight, None);
    assert_eq!(drawable.line_count, 2);
    assert_eq!(drawable.status_line.content, "src/lib.rs");
    assert_eq!(drawable.status_line.color, None);
}

#[test]
fn data_colors_the_status_line_in_insert_mode() {
    let buffer = Buffer::new();
    let drawable = data(Some(&buffer), &Mode::Insert(InsertMode::new()));
    assert_eq!(drawable.status_line.color, Some(Color::Green));
    assert_eq!(drawable.status_line.content, "");
    assert_eq!(drawable.line_count, 0);
    assert_eq!(drawable.tokens, Some(Vec::new()));
}

#[test]
fn data_highlights_the_selection() {
    let mut buffer = Buffer::new();
    buffer.insert("amp\neditor\nlib");
    assert!(buffer.cursor.move_to(scribe::buffer::Position { line: 1, offset: 2 }));
    let drawable = data(Some(&buffer), &Mode::Select(SelectMode::new(at(2, 1))));
    assert_eq!(drawable.highlight, Some(Range::new(at(1, 2), at(2, 1))));
    let drawable = data(Some(&buffer), &Mode::SelectLine(SelectLineMode::new(0)));
    assert_eq!(drawable.highlight, Some(Range::new(at(0, 0), at(2, 0))));
    let drawable = data(Some(&buffer), &Mode::SelectLine(SelectLineMode::new(2)));
    assert_eq!(drawable.highlight, Some(Range::new(at(1, 0), at(2, 3))));
}

#[test]
fn status_line_data_names_the_path_and_marks_changes() {
    let mut buffer = Buffer::new();
    buffer.path = Some(std::path::PathBuf::from("notes.txt"));
    assert_eq!(buffer_status_line_data(&buffer), "notes.txt*");
    let plain = Buffer::new();
    assert_eq!(buffer_status_line_data(&plain), "*");
}

#[test]
fn status_line_data_leaves_an_unchanged_buffer_unmarked() {
    let mut buffer = Buffer::from_file(std::path::Path::new("src/lib.rs")).unwrap();
    let unchanged = buffer_status_line_data(&buffer);
    assert!(unchanged.starts_with("/"));
    assert!(unchanged.ends_with("src/lib.rs"));
    buffer.insert("x");
    assert!(buffer_status_line_data(&buffer).ends_with("src/lib.rs*"));
}

use amp::buffer::{Position, Range};
use amp::token::{Category, Token};
use amp::view::canvas::{draw, Cell, Layout, LINE_LENGTH_GUIDE_OFFSET};
use amp::view::color::{Color, Style};
use amp::view::gutter::{decimal_digits, line_number, line_number_width};
use amp::view::terminal::Text;
use amp::view::{Data, StatusLine, Theme, View};

fn token(lexeme: &str, category: Category) -> Token {
    Token { lexeme: lexeme.to_string(), category }
}

fn cell(x: usize, y: usize, style: Style, fg: Color, bg: Color, character: char) -> Cell {
    Cell { x, y, style, foreground: fg, background: bg, character }
}

fn drawable(tokens: Vec<Token>, cursor: Option<Position>, highlight: Option<Range>) -> Data {
    Data {
        buffer_id: 0,
        tokens: Some(tokens),
        cursor,
        highlight,
        line_count: 2,
        status_line: StatusLine { content: String::new(), color: None },
    }
}

#[test]
fn decimal_digits_spell_numbers() {
    assert_eq!(decimal_digits(0), vec!['0']);
    assert_eq!(decimal_digits(7), vec!['7']);
    assert_eq!(decimal_digits(10), vec!['1', '0']);
    assert_eq!(decimal_digits(1234567890), "1234567890".chars().collect::<Vec<char>>());
    assert_eq!(decimal_digits(usize::MAX), usize::MAX.to_string().chars().collect::<Vec<char>>());
}

#[test]
fn line_numbers_are_right_aligned_before_a_gap() {
    for (number, width) in [(1usize, 2usize), (42, 3), (42, 2), (1000, 2), (7, 0), (0, 5)].iter() {
        let expected = format!("{:>width$}  ", number, width = *width);
        assert_eq!(line_number(*number, *width), expected.chars().collect::<Vec<char>>());
    }
}

#[test]
fn the_gutter_is_as_wide_as_the_largest_number_in_sight() {
    assert_eq!(line_number_width(2, 0, 23), 2);
    assert_eq!(line_number_width(1000, 0, 23), 3);
    assert_eq!(line_number_width(1000, 80, 23), 4);
    assert_eq!(line_number_width(1000, 990, 23), 5);
    assert_eq!(line_number_width(0, 0, 23), 2);
    assert_eq!(line_number_width(5, usize::MAX, 23), 2);
}

#[test]
fn categories_have_their_colors() {
    assert_eq!(amp::view::color::map(&Category::Keyword), Color::Yellow);
    assert_eq!(amp::view::color::map(&Category::Identifier), Color::Magenta);
    assert_eq!(amp::view::color::map(&Category::String), Color::Red);
    assert_eq!(amp::view::color::map(&Category::Comment), Color::Blue);
    assert_eq!(amp::view::color::map(&Category::Method), Color::Cyan);
    assert_eq!(amp::view::color::map(&Category::Text), Color::Default);
    assert_eq!(amp::view::color::map(&Category::Whitespace), Color::Default);
}

#[test]
fn draw_tokens_paints_rows_behind_their_line_numbers() {
    let view = View::new(12, 4);
    let tokens = vec![token("ab", Category::Text), token("\n", Category::Whitespace), token("cd", Category::Keyword)];
    let frame = view.draw_tokens(&drawable(tokens, Some(Position { line: 1, offset: 1 }), None));
    let n = Style::Normal;
    let b = Style::Bold;
    let d = Color::Default;
    let k = Color::Black;
    let mut expected = vec![
        cell(0, 0, n, d, k, ' '),
        cell(1, 0, n, d, k, '1'),
        cell(2, 0, n, d, k, ' '),
        cell(3, 0, n, d, d, ' '),
        cell(4, 0, n, d, d, 'a'),
        cell(5, 0, n, d, d, 'b'),
        cell(0, 1, b, d, k, ' '),
        cell(1, 1, b, d, k, '2'),
        cell(2, 1, b, d, k, ' '),
        cell(3, 1, b, d, k, ' '),
        cell(4, 1, n, Color::Yellow, k, 'c'),
        cell(5, 1, n, Color::Yellow, k, 'd'),
    ];
    for x in 6..12 {
        expected.push(cell(x, 1, n, d, k, ' '));
    }
    assert_eq!(frame.cells, expected);
    assert_eq!(frame.cursor, Some(Position { line: 1, offset: 5 }));
}

#[test]
fn draw_tokens_without_tokens_paints_nothing() {
    let view = View::new(12, 4);
    let mut data = drawable(Vec::new(), Some(Position { line: 0, offset: 0 }), None);
    data.tokens = None;
    let frame = view.draw_tokens(&data);
    assert_eq!(frame.cells, Vec::<Cell>::new());
    assert_eq!(frame.cursor, None);
}

#[test]
fn draw_tokens_reverses_the_highlight() {
    let mut view = View::new(12, 4);
    view.theme = Theme::Light;
    let tokens = vec![token("abcd", Category::Keyword)];
    let highlight = Range::new(Position { line: 0, offset: 1 }, Position { line: 0, offset: 3 });
    let frame = view.draw_tokens(&drawable(tokens, None, Some(highlight)));
    let text: Vec<Cell> = frame.cells.iter().filter(|c| c.x >= 4).cloned().collect();
    assert_eq!(
        text,
        vec![
            cell(4, 0, Style::Normal, Color::Yellow, Color::Default, 'a'),
            cell(5, 0, Style::Reverse, Color::Default, Color::Default, 'b'),
            cell(6, 0, Style::Reverse, Color::Default, Color::Default, 'c'),
            cell(7, 0, Style::Normal, Color::Yellow, Color::Default, 'd'),
        ]
    );
    assert_eq!(frame.cells[0], cell(0, 0, Style::Normal, Color::Default, Color::White, ' '));
    assert_eq!(frame.cursor, None);
}

#[test]
fn draw_tokens_stays_on_the_grid() {
    let view = View::new(8, 3);
    let tokens = vec![token("a long line of text\nsecond\nthird\nfourth", Category::Text)];
    let frame = view.draw_tokens(&drawable(tokens, Some(Position { line: 0, offset: 0 }), None));
    assert!(frame.cells.iter().all(|c| c.x < 8 && c.y < 2));
    let first: String = frame.cells.iter().filter(|c| c.y == 0 && c.x >= 4).map(|c| c.character).collect();
    assert_eq!(first, "a lo");
    let second: String = frame.cells.iter().filter(|c| c.y == 1 && c.x >= 4).map(|c| c.character).collect();
    assert_eq!(second, "seco");
}

#[test]
fn draw_tokens_paints_the_guide_on_every_row() {
    let view = View::new(100, 4);
    let tokens = vec![token("a\nb\nc", Category::Text)];
    let frame = view.draw_tokens(&drawable(tokens, None, None));
    let guides: Vec<&Cell> = frame.cells.iter().filter(|c| c.x == LINE_LENGTH_GUIDE_OFFSET).collect();
    assert_eq!(guides.len(), 3);
    for (row, guide) in guides.iter().enumerate() {
        assert_eq!(**guide, cell(80, row, Style::Normal, Color::Default, Color::Black, ' '));
    }
}

#[test]
fn draw_numbers_rows_from_the_scroll_offset() {
    let layout = Layout {
        width: 10,
        rows: 2,
        number_width: 3,
        line_offset: 41,
        cursor: None,
        highlight: None,
        alt_background: Color::Black,
    };
    let cells = draw(&vec![token("x\ny\nz", Category::Text)], &layout);
    let row = |y: usize| -> String { cells.iter().filter(|c| c.y == y).map(|c| c.character).collect() };
    assert_eq!(row(0), " 42  x");
    assert_eq!(row(1), " 43  y");
    assert_eq!(row(2), "");
}

#[test]
fn draw_status_line_pads_the_content_to_the_width() {
    let view = View::new(10, 5);
    assert_eq!(
        view.draw_status_line("amp", None),
        Text {
            x: 0,
            y: 4,
            style: Style::Bold,
            foreground: Color::Default,
            background: Color::Black,
            content: "amp       ".to_string(),
        }
    );
    let text = view.draw_status_line("a long file name", Some(Color::Green));
    assert_eq!(text.content, "a long file name");
    assert_eq!(text.background, Color::Green);
    assert_eq!(View::new(3, 0).draw_status_line("", None).y, 0);
}

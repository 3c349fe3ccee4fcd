use amp::buffer::{LineRange, Position, Range};
use amp::helpers::{buffer_id, inclusive_range, inclusive_range_over};
use scribe::Buffer;

#[test]
fn inclusive_range_works_correctly_without_trailing_newline() {
    let mut buffer = Buffer::new();
    buffer.insert("amp\neditor");
    let range = LineRange::new(1, 1);

    assert_eq!(
        inclusive_range(&range, &mut buffer),
        Range::new(Position { line: 1, offset: 0 }, Position { line: 1, offset: 6 })
    );
}

#[test]
fn inclusive_range_works_correctly_with_trailing_newline() {
    let mut buffer = Buffer::new();
    buffer.insert("amp\neditor\n");
    let range = LineRange::new(1, 1);

    assert_eq!(
        inclusive_range(&range, &mut buffer),
        Range::new(Position { line: 1, offset: 0 }, Position { line: 2, offset: 0 })
    );
}

#[test]
fn inclusive_range_beyond_the_text_ends_at_a_zero_offset() {
    let text: Vec<char> = "amp\neditor".chars().collect();
    let range = LineRange::new(1, 5);
    assert_eq!(
        inclusive_range_over(&range, &text),
        Range::new(Position { line: 1, offset: 0 }, Position { line: 5, offset: 0 })
    );
}

#[test]
fn inclusive_range_counts_characters_and_leaves_out_carriage_returns() {
    let text: Vec<char> = "amp\r\nédité\r\nx".chars().collect();
    assert_eq!(
        inclusive_range_over(&LineRange::new(0, 1), &text),
        Range::new(Position { line: 0, offset: 0 }, Position { line: 2, offset: 0 })
    );
    let text: Vec<char> = "amp\nédité".chars().collect();
    assert_eq!(
        inclusive_range_over(&LineRange::new(1, 0), &text),
        Range::new(Position { line: 0, offset: 0 }, Position { line: 1, offset: 5 })
    );
}

#[test]
fn buffer_id_is_the_identity_in_the_workspace() {
    let mut workspace = scribe::Workspace::new(std::path::Path::new(".")).unwrap();
    assert_eq!(buffer_id(&Buffer::new()), 0);
    workspace.add_buffer(Buffer::new());
    workspace.add_buffer(Buffer::new());
    assert_eq!(buffer_id(workspace.current_buffer.as_ref().unwrap()), 1);
}

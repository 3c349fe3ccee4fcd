//! Helpers shared by commands and presenters.
pub mod selectable_set;
pub mod token;

use vstd::prelude::*;
use crate::buffer::line_range::LineRange;
use crate::buffer::position::Position;
use crate::buffer::range::Range;
use crate::storage::{buffer_data, buffer_identity, buffer_state};
use crate::text::{chars_of, count_newlines, line_bounds, newline_count, nth_line};

verus! {

/// Where a range of whole lines ends when its last line is part of it: at
/// the start of the line below, where the text has one; else at the end of
/// the last line's content; else at the start of the last line.
pub open spec fn inclusive_end(text: Seq<char>, end_line: usize) -> Position {
    if newline_count(text) > end_line {
        Position { line: (end_line + 1) as usize, offset: 0 }
    } else {
        match nth_line(text, end_line as nat) {
            Some(content) => Position { line: end_line, offset: content.len() as usize },
            None => Position { line: end_line, offset: 0 },
        }
    }
}

/// Converts a line range over a text to a character range that includes
/// its last line.
pub fn inclusive_range_over(line_range: &LineRange, text: &Vec<char>) -> (r: Range)
    ensures
        r == Range::new(
            Position { line: line_range.start(), offset: 0 },
            inclusive_end(text@, line_range.end()),
        ),
        r.start() == (Position { line: line_range.start(), offset: 0 }),
        r.end() == inclusive_end(text@, line_range.end()),
{
    let first: usize = line_range.start();
    let last: usize = line_range.end();
    let end_position = if count_newlines(text) > last {
        // There's a line below the end of the range, so just use that
        // to capture the last line and its trailing newline character.
        Position { line: last + 1, offset: 0 }
    } else {
        // There isn't a line below the end of the range, so use the
        // last line's length as the ending offset.
        match line_bounds(text, last) {
            Some((from, to)) => Position { line: last, offset: to - from },
            None => Position { line: last, offset: 0 },
        }
    };
    Range::new(Position { line: first, offset: 0 }, end_position)
}

/// Converts a line range to a regular range, including its last line.
/// Handles ranges that end on a line without trailing newline character.
pub fn inclusive_range(line_range: &LineRange, buffer: &scribe::Buffer) -> (r: Range)
    ensures
        r == Range::new(
            Position { line: line_range.start(), offset: 0 },
            inclusive_end(buffer_state(*buffer).text, line_range.end()),
        ),
        r.start() == (Position { line: line_range.start(), offset: 0 }),
        r.end() == inclusive_end(buffer_state(*buffer).text, line_range.end()),
{
    let data = buffer_data(buffer);
    let text = chars_of(data.as_str());
    inclusive_range_over(line_range, &text)
}

/// The key under which a buffer's scroll offset is kept: the identity that
/// its workspace gave it. Buffers that are in no workspace share the key 0.
pub open spec fn scroll_key(id: Option<usize>) -> usize {
    match id {
        Some(id) => id,
        None => 0,
    }
}

/// The key under which the view tracks a buffer's scroll offset.
pub fn buffer_id(buffer: &scribe::Buffer) -> (r: usize)
    ensures
        r == scroll_key(buffer_state(*buffer).id),
{
    match buffer_identity(buffer) {
        Some(id) => id,
        None => 0,
    }
}

} // verus!

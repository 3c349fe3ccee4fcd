//! What a presenter hands to the view: the drawable state of one buffer.
use vstd::prelude::*;
use crate::buffer::position::Position;
use crate::buffer::range::Range;
use crate::token::Token;
use crate::view::color::Color;

verus! {

/// The drawable state of a buffer, in the buffer's own coordinates.
pub struct Data {
    pub buffer_id: usize,
    pub tokens: Option<Vec<Token>>,
    pub cursor: Option<Position>,
    pub highlight: Option<Range>,
    pub line_count: usize,
    pub status_line: StatusLine,
}

/// The content of the status line, and the color that sets it apart.
pub struct StatusLine {
    pub content: String,
    pub color: Option<Color>,
}

} // verus!

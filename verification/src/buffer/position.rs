//! Zero-based line/offset coordinates in a buffer.
use vstd::prelude::*;

verus! {

/// A location before or after a character: `offset` counts the characters
/// that precede it on its line.
#[derive(Clone, Copy, Debug, PartialEq, Eq, Structural)]
pub struct Position {
    pub line: usize,
    pub offset: usize,
}

impl Position {
    /// Document order: by line, then by offset.
    pub open spec fn precedes(self, other: Position) -> bool {
        self.line < other.line || (self.line == other.line && self.offset < other.offset)
    }

    pub open spec fn precedes_or_is(self, other: Position) -> bool {
        self.precedes(other) || self == other
    }

    /// The position at the very start of a buffer.
    pub fn new() -> (r: Position)
        ensures
            r == (Position { line: 0, offset: 0 }),
    {
        Position { line: 0, offset: 0 }
    }

    pub fn is_before(&self, other: &Position) -> (r: bool)
        ensures
            r == self.precedes(*other),
    {
        self.line < other.line || (self.line == other.line && self.offset < other.offset)
    }

    pub fn is_at_or_before(&self, other: &Position) -> (r: bool)
        ensures
            r == self.precedes_or_is(*other),
    {
        self.line < other.line || (self.line == other.line && self.offset <= other.offset)
    }
}

} // verus!

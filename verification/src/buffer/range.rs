//! A span of characters between two positions.
use vstd::prelude::*;
use crate::buffer::position::Position;

verus! {

/// A two-position span whose start never follows its end.
#[derive(Clone, Copy, Debug, PartialEq, Eq, Structural)]
pub struct Range {
    start: Position,
    end: Position,
}

impl Range {
    #[verifier::type_invariant]
    spec fn ordered(&self) -> bool {
        self.start.precedes_or_is(self.end)
    }

    pub closed spec fn spec_start(&self) -> Position {
        self.start
    }

    pub closed spec fn spec_end(&self) -> Position {
        self.end
    }

    /// Whether a position lies in the span; the end itself lies outside.
    pub open spec fn spec_includes(&self, position: &Position) -> bool {
        self.start().precedes_or_is(*position) && position.precedes(self.end())
    }

    /// The range between two positions, whichever of them comes first.
    pub closed spec fn spec_new(start: Position, end: Position) -> Range {
        if end.precedes(start) {
            Range { start: end, end: start }
        } else {
            Range { start, end }
        }
    }

    /// Creates a range, swapping the arguments where the end precedes the start.
    #[verifier::when_used_as_spec(spec_new)]
    pub fn new(start: Position, end: Position) -> (r: Range)
        ensures
            r == Self::new(start, end),
            r.start() == if end.precedes(start) { end } else { start },
            r.end() == if end.precedes(start) { start } else { end },
            r.start().precedes_or_is(r.end()),
    {
        if end.is_before(&start) {
            Range { start: end, end: start }
        } else {
            Range { start, end }
        }
    }

    #[verifier::when_used_as_spec(spec_start)]
    pub fn start(&self) -> (r: Position)
        ensures
            r == self.start(),
            r.precedes_or_is(self.end()),
    {
        proof {
            use_type_invariant(self);
        }
        self.start
    }

    #[verifier::when_used_as_spec(spec_end)]
    pub fn end(&self) -> (r: Position)
        ensures
            r == self.end(),
    {
        self.end
    }

    #[verifier::when_used_as_spec(spec_includes)]
    pub fn includes(&self, position: &Position) -> (r: bool)
        ensures
            r == self.includes(position),
    {
        self.start.is_at_or_before(position) && position.is_before(&self.end)
    }
}

/// A range made of two positions starts at the one that comes first and
/// ends at the other.
pub proof fn lemma_range_new(start: Position, end: Position)
    ensures
        Range::new(start, end).start() == if end.precedes(start) { end } else { start },
        Range::new(start, end).end() == if end.precedes(start) { start } else { end },
        Range::new(start, end).start().precedes_or_is(Range::new(start, end).end()),
{
}

} // verus!

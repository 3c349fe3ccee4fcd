//! A span of whole lines.
use vstd::prelude::*;
use crate::buffer::position::Position;
use crate::buffer::range::Range;

verus! {

/// A span of lines whose start never follows its end.
#[derive(Clone, Copy, Debug, PartialEq, Eq, Structural)]
pub struct LineRange {
    start: usize,
    end: usize,
}

impl LineRange {
    #[verifier::type_invariant]
    spec fn ordered(&self) -> bool {
        self.start <= self.end
    }

    pub closed spec fn spec_start(&self) -> usize {
        self.start
    }

    pub closed spec fn spec_end(&self) -> usize {
        self.end
    }

    /// Whether a line lies in the span; the end line itself lies outside.
    pub open spec fn spec_includes(&self, line: usize) -> bool {
        self.start() <= line < self.end()
    }

    /// The line range between two lines, whichever of them comes first.
    pub closed spec fn spec_new(start: usize, end: usize) -> LineRange {
        if start < end {
            LineRange { start, end }
        } else {
            LineRange { start: end, end: start }
        }
    }

    /// Creates a line range, swapping the arguments where the end precedes
    /// the start.
    #[verifier::when_used_as_spec(spec_new)]
    pub fn new(start: usize, end: usize) -> (r: LineRange)
        ensures
            r == Self::new(start, end),
            r.start() == if start <= end { start } else { end },
            r.end() == if start <= end { end } else { start },
            r.start() <= r.end(),
    {
        if start < end {
            LineRange { start, end }
        } else {
            LineRange { start: end, end: start }
        }
    }

    #[verifier::when_used_as_spec(spec_start)]
    pub fn start(&self) -> (r: usize)
        ensures
            r == self.start(),
            r <= self.end(),
    {
        proof {
            use_type_invariant(self);
        }
        self.start
    }

    #[verifier::when_used_as_spec(spec_end)]
    pub fn end(&self) -> (r: usize)
        ensures
            r == self.end(),
    {
        self.end
    }

    /// The zero-offset character range from the first line to the end line.
    pub fn to_range(&self) -> (r: Range)
        ensures
            r.start() == (Position { line: self.start(), offset: 0 }),
            r.end() == (Position { line: self.end(), offset: 0 }),
    {
        let r = Range::new(
            Position { line: self.start, offset: 0 },
            Position { line: self.end, offset: 0 },
        );
        proof {
            use_type_invariant(self);
        }
        r
    }

    #[verifier::when_used_as_spec(spec_includes)]
    pub fn includes(&self, line: usize) -> (r: bool)
        ensures
            r == self.includes(line),
    {
        line >= self.start && line < self.end
    }
}

/// A line range made of two lines starts at the smaller and ends at the
/// larger.
pub proof fn lemma_line_range_new(start: usize, end: usize)
    ensures
        LineRange::new(start, end).start() == if start <= end { start } else { end },
        LineRange::new(start, end).end() == if start <= end { end } else { start },
{
}

} // verus!

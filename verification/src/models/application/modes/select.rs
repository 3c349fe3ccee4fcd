//! Select mode: a character selection between an anchor and the cursor.
use vstd::prelude::*;
use crate::buffer::position::Position;
use crate::buffer::range::Range;

verus! {

pub struct SelectMode {
    pub anchor: Position,
}

impl SelectMode {
    pub fn new(anchor: Position) -> (r: SelectMode)
        ensures
            r.anchor == anchor,
    {
        SelectMode { anchor }
    }

    /// The selection: the span between the anchor and the cursor, whichever
    /// of the two comes first.
    pub fn to_range(&self, cursor: &Position) -> (r: Range)
        ensures
            r == Range::new(self.anchor, *cursor),
            r.start() == if cursor.precedes(self.anchor) { *cursor } else { self.anchor },
            r.end() == if cursor.precedes(self.anchor) { self.anchor } else { *cursor },
    {
        Range::new(self.anchor, *cursor)
    }
}

} // verus!

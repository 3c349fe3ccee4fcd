//! Select line mode: a selection of whole lines between an anchor line and
//! the cursor's line.
use vstd::prelude::*;
use crate::buffer::line_range::LineRange;
use crate::buffer::position::Position;

verus! {

pub struct SelectLineMode {
    pub anchor: usize,
}

impl SelectLineMode {
    pub fn new(anchor: usize) -> (r: SelectLineMode)
        ensures
            r.anchor == anchor,
    {
        SelectLineMode { anchor }
    }

    /// The selected lines: from the anchor line to the cursor's line,
    /// whichever of the two comes first.
    pub fn to_range(&self, cursor: &Position) -> (r: LineRange)
        ensures
            r == LineRange::new(self.anchor, cursor.line),
            r.start() == if self.anchor <= cursor.line { self.anchor } else { cursor.line },
            r.end() == if self.anchor <= cursor.line { cursor.line } else { self.anchor },
    {
        LineRange::new(self.anchor, cursor.line)
    }
}

} // verus!

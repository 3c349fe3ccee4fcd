//! Line jump mode: collects the digits of a line number.
use vstd::prelude::*;

verus! {

pub struct LineJumpMode {
    pub input: String,
}

impl LineJumpMode {
    pub fn new() -> (r: LineJumpMode)
        ensures
            r.input@.len() == 0,
    {
        LineJumpMode { input: String::new() }
    }
}

} // verus!

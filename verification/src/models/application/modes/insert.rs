//! Insert mode: typed characters go into the buffer.
use vstd::prelude::*;

verus! {

pub struct InsertMode {
    pub input: Option<char>,
}

impl InsertMode {
    pub fn new() -> (r: InsertMode)
        ensures
            r.input is None,
    {
        InsertMode { input: None }
    }
}

} // verus!

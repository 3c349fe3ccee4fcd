//! Search insert mode: collects the characters of a search query.
use vstd::prelude::*;

verus! {

pub struct SearchInsertMode {
    pub input: String,
}

impl SearchInsertMode {
    pub fn new() -> (r: SearchInsertMode)
        ensures
            r.input@.len() == 0,
    {
        SearchInsertMode { input: String::new() }
    }
}

} // verus!

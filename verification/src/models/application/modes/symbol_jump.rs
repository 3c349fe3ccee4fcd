//! Symbol jump mode: collects the characters of a symbol's name.
use vstd::prelude::*;

verus! {

pub struct SymbolJumpMode {
    pub input: String,
}

impl SymbolJumpMode {
    pub fn new() -> (r: SymbolJumpMode)
        ensures
            r.input@.len() == 0,
    {
        SymbolJumpMode { input: String::new() }
    }
}

} // verus!

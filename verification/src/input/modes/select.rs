//! The key map of select mode: that of select line mode.
use vstd::prelude::*;
use crate::commands::Command;
use crate::input::Key;

verus! {

/// Resolves a key in select mode.
pub fn handle(input: Key) -> (r: Option<Command>)
    ensures
        r == crate::input::modes::select_line::command_for(input),
{
    crate::input::modes::select_line::handle(input)
}

} // verus!

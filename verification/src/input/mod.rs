//! Key events, and the key maps of the modes.
pub mod modes;

use vstd::prelude::*;
use crate::commands::{Outcome, ran, run};
use crate::models::application::{Application, Mode};

verus! {

/// A key press, as the terminal driver decodes it.
#[derive(Clone, Copy, Debug, PartialEq, Eq, Structural)]
pub enum Key {
    Tab,
    Enter,
    Esc,
    Backspace,
    Right,
    Left,
    Up,
    Down,
    Delete,
    Insert,
    Home,
    End,
    PageUp,
    PageDown,
    Char(char),
    Ctrl(char),
    F(u32),
    Unknown(u16),
}

/// What came of a key, and whether the main loop goes on.
pub struct Step {
    /// What the command left for the caller, if the key stood for one.
    pub outcome: Option<Outcome>,
    /// Whether the application is still running: it stops as soon as a
    /// command has asked to exit.
    pub running: bool,
}

/// Whether an application and a step are what a key makes of an
/// application: the active mode takes the key, and the command that the
/// key stands for in that mode, if any, is carried out on what the mode
/// has become. A key that stands for no command changes nothing but what
/// the mode keeps of its own input.
pub open spec fn stepped(before: Application, after: Application, key: Key, step: Step) -> bool {
    &&& step.running == !(after.mode is Exit)
    &&& exists|mode: Mode| #[trigger]
        modes::took(before.mode, mode, key) && match modes::command_for(before.mode, key) {
            Some(command) => step.outcome matches Some(outcome) && ran(
                command,
                Application { mode, ..before },
                after,
                outcome,
            ),
            None => step.outcome is None && after == (Application { mode, ..before }),
        }
}

/// Takes one key: resolves it through the key map of the active mode,
/// carries out the command it stands for, and tells whether the
/// application goes on.
pub fn take_key(app: &mut Application, key: Key) -> (r: Step)
    ensures
        stepped(*old(app), *final(app), key, r),
{
    let command = modes::handle(&mut app.mode, key);
    let ghost taken = app.mode;
    proof {
        assert(*app == (Application { mode: taken, ..*old(app) }));
    }
    let outcome = match command {
        Some(command) => Some(run(command, app)),
        None => None,
    };
    let running: bool = match &app.mode {
        Mode::Exit => false,
        _ => true,
    };
    proof {
        assert(modes::took(old(app).mode, taken, key));
    }
    Step { outcome, running }
}

} // verus!
